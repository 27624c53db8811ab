use space_race::game_event::handle_game_events;
use space_race::game_event::FrameEvent;
use space_race::game_event::GameEvent;
use space_race::game_over::is_screen_open;
use space_race::game_over::replay_choice;
use space_race::game_over::MatchOutcome;
use space_race::game_state::ClockReading;
use space_race::game_state::Effects;
use space_race::game_state::GameState;
use space_race::missile::Missile;
use space_race::missile::MissileDirection;
use space_race::spaceship::Spaceship;
use std::time::Duration;
use std::time::Instant;

fn match_with(missiles: Vec<Missile>) -> GameState {
    let mut gs = GameState::start(0, 45);
    gs.missiles = missiles;
    gs
}

fn clock(since_death_p1: u128, since_death_p2: u128) -> ClockReading {
    ClockReading { now: Instant::now(), since_death_p1, since_death_p2 }
}

#[test]
fn new_match() {
    let before = Instant::now();
    let gs = GameState::new(20, 45);
    let after = Instant::now();
    assert_eq!(gs.missiles.len(), 20);
    for m in &gs.missiles {
        assert!(0 <= m.x && m.x <= 800);
        assert!(0 <= m.y && m.y <= 400);
    }
    assert!(!gs.is_game_over);
    assert!(gs.is_game_restarted);
    assert_eq!(gs.score_p1, 0);
    assert_eq!(gs.score_p2, 0);
    assert_eq!(gs.game_duration, 45);
    assert!(before <= gs.starting_time && gs.starting_time <= after);
    assert!(gs.spaceship_p1.is_alive);
    assert!(gs.spaceship_p2.is_alive);
    assert_eq!((gs.spaceship_p1.body.rect.x, gs.spaceship_p1.body.rect.y), (188, 540));
    assert_eq!((gs.spaceship_p2.body.rect.x, gs.spaceship_p2.body.rect.y), (588, 540));
    assert_eq!(gs.spaceship_p2.head.triangle_x, [588, 600, 613]);
}

#[test]
fn new_match_without_missiles() {
    let gs = GameState::new(0, 0);
    assert_eq!(gs.missiles.len(), 0);
    assert_eq!(gs.game_duration, 0);
}

#[test]
fn started_match_is_not_flagged() {
    let gs = GameState::start(3, 45);
    assert_eq!(gs.missiles.len(), 3);
    assert!(!gs.is_game_over);
    assert!(!gs.is_game_restarted);
}

#[test]
fn scoring_boundary() {
    // y + 60 + 18 == 0
    assert!(GameState::has_spaceship_scored(&Spaceship::new(188, -78)));
    // y + 60 + 18 == 1
    assert!(!GameState::has_spaceship_scored(&Spaceship::new(188, -77)));
    assert!(GameState::has_spaceship_scored(&Spaceship::new(188, -79)));
    assert!(!GameState::has_spaceship_scored(&Spaceship::new(188, 540)));
}

#[test]
fn resets_put_a_new_craft_at_the_start() {
    let mut gs = GameState::start(2, 45);
    gs.spaceship_p1.move_upward();
    gs.spaceship_p1.die();
    gs.spaceship_p2.move_upward();
    gs.reset_spaceship_p1();
    assert!(gs.spaceship_p1.is_alive);
    assert_eq!(gs.spaceship_p1.body.rect.y, 540);
    assert_eq!(gs.spaceship_p1.head.triangle_y, [540, 515, 540]);
    assert_eq!(gs.spaceship_p2.body.rect.y, 532);
    gs.reset_spaceship_p2();
    assert_eq!(gs.spaceship_p2.body.rect.x, 588);
    assert_eq!(gs.spaceship_p2.body.rect.y, 540);
    assert_eq!(gs.missiles.len(), 2);
}

#[test]
fn elapsed_boundary() {
    assert!(!GameState::has_elapsed(0, 45));
    assert!(!GameState::has_elapsed(45_000_000_000, 45));
    assert!(GameState::has_elapsed(45_000_000_001, 45));
    assert!(!GameState::has_elapsed(0, 0));
    assert!(GameState::has_elapsed(1, 0));
    assert!(!GameState::has_elapsed(u64::MAX as u128, u64::MAX));
}

#[test]
fn match_elapses_with_the_clock() {
    let mut gs = GameState::new(1, 45);
    assert!(!gs.is_game_elapsed());
    gs.starting_time = Instant::now().checked_sub(Duration::from_secs(44)).unwrap();
    assert!(!gs.is_game_elapsed());
    gs.starting_time = Instant::now().checked_sub(Duration::from_secs(46)).unwrap();
    assert!(gs.is_game_elapsed());
}

#[test]
fn keeps_running_until_a_flag_or_the_time() {
    let mut gs = GameState::start(1, 45);
    assert!(gs.keeps_running(0));
    assert!(gs.keeps_running(45_000_000_000));
    assert!(!gs.keeps_running(45_000_000_001));
    gs.is_game_over = true;
    assert!(!gs.keeps_running(0));
    gs.is_game_over = false;
    gs.is_game_restarted = true;
    assert!(!gs.keeps_running(0));
}

#[test]
fn outcome_victory_draw_defeat() {
    let mut gs = GameState::start(1, 0);
    gs.starting_time = Instant::now().checked_sub(Duration::from_millis(10)).unwrap();
    assert!(gs.is_game_elapsed());
    gs.score_p1 = 3;
    gs.score_p2 = 1;
    assert_eq!(gs.outcome(), MatchOutcome::Victory);
    assert_eq!(gs.outcome_after(1), Some(MatchOutcome::Victory));
    assert_eq!(gs.outcome_after(0), None);
    gs.score_p1 = 2;
    gs.score_p2 = 2;
    assert_eq!(gs.outcome(), MatchOutcome::Draw);
    assert_eq!(gs.outcome_after(1), Some(MatchOutcome::Draw));
    gs.score_p1 = 0;
    gs.score_p2 = 5;
    assert_eq!(gs.outcome(), MatchOutcome::Defeat);
    assert_eq!(gs.outcome_after(1), Some(MatchOutcome::Defeat));
}

#[test]
fn outcome_texts() {
    assert_eq!(MatchOutcome::of_scores(1, 0), MatchOutcome::Victory);
    assert_eq!(MatchOutcome::of_scores(0, 1), MatchOutcome::Defeat);
    assert_eq!(MatchOutcome::of_scores(0, 0), MatchOutcome::Draw);
    assert_eq!(MatchOutcome::Victory.title(), "VICTORY");
    assert_eq!(MatchOutcome::Defeat.title(), "DEFEAT");
    assert_eq!(MatchOutcome::Draw.title(), "DRAW");
    assert_eq!(MatchOutcome::Victory.message(), "You won! You have nothing to prove anymore!");
    assert_eq!(MatchOutcome::Defeat.message(), "You lost! Are you going to stop on a defeat ?");
    assert_eq!(
        MatchOutcome::Draw.message(),
        "It's a tie! One single point would have been enough to win!"
    );
}

#[test]
fn closing_screen_choices() {
    assert_eq!(replay_choice(GameEvent::Quit), Some(false));
    assert_eq!(replay_choice(GameEvent::Restart), Some(true));
    assert_eq!(replay_choice(GameEvent::Frame), None);
    assert_eq!(replay_choice(GameEvent::MoveUp), None);
    assert_eq!(replay_choice(GameEvent::MoveDown), None);
    assert_eq!(replay_choice(GameEvent::Other), None);
    assert!(is_screen_open(0));
    assert!(is_screen_open(9));
    assert!(!is_screen_open(10));
}

#[test]
fn collision_occurred_for_any_missile() {
    let gs = match_with(vec![
        Missile::at(400, 100, MissileDirection::Left),
        Missile::at(588, 540, MissileDirection::Right),
    ]);
    assert!(!gs.collision_occurred_for(&gs.spaceship_p1));
    assert!(gs.collision_occurred_for(&gs.spaceship_p2));
    let gs = match_with(vec![]);
    assert!(!gs.collision_occurred_for(&gs.spaceship_p1));
}

#[test]
fn missile_over_the_body_kills_the_craft() {
    let mut gs = match_with(vec![Missile::at(188, 540, MissileDirection::Left)]);
    assert!(gs.spaceship_p1.is_alive);
    assert!(gs.collision_occurred_for(&gs.spaceship_p1));
    let before = Instant::now();
    gs.spaceship_p1.die();
    let after = Instant::now();
    assert!(!gs.spaceship_p1.is_alive);
    assert!(before <= gs.spaceship_p1.death_instant && gs.spaceship_p1.death_instant <= after);
}

#[test]
fn resolve_collisions_kills_at_the_given_instant() {
    let mut gs = match_with(vec![Missile::at(188, 540, MissileDirection::Left)]);
    let born = gs.spaceship_p2.death_instant;
    let now = Instant::now();
    let hit = gs.resolve_collisions(now);
    assert_eq!(hit, (true, false));
    assert!(!gs.spaceship_p1.is_alive);
    assert_eq!(gs.spaceship_p1.death_instant, now);
    assert_eq!(gs.spaceship_p1.body.rect.y, 540);
    assert!(gs.spaceship_p2.is_alive);
    assert_eq!(gs.spaceship_p2.death_instant, born);
    // A dead craft is not hit again.
    let later = Instant::now();
    let hit = gs.resolve_collisions(later);
    assert_eq!(hit, (false, false));
    assert_eq!(gs.spaceship_p1.death_instant, now);
}

#[test]
fn update_missiles_moves_each() {
    let mut gs = match_with(vec![
        Missile::at(100, 50, MissileDirection::Left),
        Missile::at(100, 60, MissileDirection::Right),
        Missile::at(-1, 70, MissileDirection::Left),
    ]);
    gs.update_missiles();
    assert_eq!(gs.missiles.len(), 3);
    assert_eq!((gs.missiles[0].x, gs.missiles[0].y), (98, 50));
    assert_eq!((gs.missiles[1].x, gs.missiles[1].y), (102, 60));
    assert_eq!((gs.missiles[2].x, gs.missiles[2].y), (798, 70));
    assert_eq!(gs.missiles[2].body.rect.x, 798);
}

#[test]
fn frame_moves_missiles_before_it_tests_collisions() {
    // The head's tip is at 186 before the update and at 188 after it.
    let mut gs = match_with(vec![Missile::at(171, 550, MissileDirection::Right)]);
    assert!(!gs.collision_occurred_for(&gs.spaceship_p1));
    let c = clock(0, 0);
    let effects = gs.apply(GameEvent::Frame, &c);
    assert_eq!(
        effects,
        Effects {
            collision_p1: true,
            collision_p2: false,
            score_p1: false,
            score_p2: false,
            redraw: true
        }
    );
    assert_eq!(gs.missiles[0].x, 173);
    assert!(!gs.spaceship_p1.is_alive);
    assert_eq!(gs.spaceship_p1.death_instant, c.now);
    assert!(gs.spaceship_p2.is_alive);
    assert_eq!(gs.spaceship_p2.body.rect.y, 532);
}

#[test]
fn frame_advances_the_second_craft_until_it_scores() {
    let mut gs = match_with(vec![]);
    gs.spaceship_p2 = Spaceship::new(588, -62);
    let c = clock(0, 0);
    let effects = gs.apply(GameEvent::Frame, &c);
    assert!(!effects.score_p2);
    assert_eq!(gs.spaceship_p2.body.rect.y, -70);
    assert_eq!(gs.score_p2, 0);
    let c = clock(0, 0);
    let effects = gs.apply(GameEvent::Frame, &c);
    assert_eq!(
        effects,
        Effects {
            collision_p1: false,
            collision_p2: false,
            score_p1: false,
            score_p2: true,
            redraw: true
        }
    );
    assert_eq!(gs.score_p2, 1);
    assert_eq!(gs.score_p1, 0);
    assert!(gs.spaceship_p2.is_alive);
    assert_eq!((gs.spaceship_p2.body.rect.x, gs.spaceship_p2.body.rect.y), (588, 540));
    assert_eq!(gs.spaceship_p2.death_instant, c.now);
    // The first craft does not move by itself.
    assert_eq!(gs.spaceship_p1.body.rect.y, 540);
}

#[test]
fn dead_crafts_come_back_after_the_cooldown_only() {
    let mut gs = match_with(vec![]);
    gs.spaceship_p1.move_upward();
    gs.spaceship_p1.die();
    gs.spaceship_p2.move_upward();
    gs.spaceship_p2.die();
    let dead_p1 = gs.spaceship_p1.death_instant;
    let effects = gs.apply(GameEvent::Frame, &clock(1_000_000_000, 999_999_999));
    assert_eq!(
        effects,
        Effects {
            collision_p1: false,
            collision_p2: false,
            score_p1: false,
            score_p2: false,
            redraw: true
        }
    );
    assert!(!gs.spaceship_p1.is_alive);
    assert!(!gs.spaceship_p2.is_alive);
    assert_eq!(gs.spaceship_p1.body.rect.y, 532);
    assert_eq!(gs.spaceship_p2.body.rect.y, 532);
    assert_eq!(gs.spaceship_p1.death_instant, dead_p1);
    let c = clock(1_000_000_001, 999_999_999);
    gs.apply(GameEvent::Frame, &c);
    assert!(gs.spaceship_p1.is_alive);
    assert_eq!(gs.spaceship_p1.body.rect.y, 540);
    assert_eq!(gs.spaceship_p1.death_instant, c.now);
    assert!(!gs.spaceship_p2.is_alive);
    let c = clock(0, 1_000_000_001);
    gs.apply(GameEvent::Frame, &c);
    assert!(gs.spaceship_p2.is_alive);
    assert_eq!((gs.spaceship_p2.body.rect.x, gs.spaceship_p2.body.rect.y), (588, 540));
    // It came back in this frame and moves from the next one on.
    assert_eq!(gs.spaceship_p1.body.rect.y, 540);
}

#[test]
fn craft_hit_in_a_frame_does_not_come_back_in_it() {
    let mut gs = match_with(vec![
        Missile::at(188, 540, MissileDirection::Left),
        Missile::at(588, 540, MissileDirection::Left),
    ]);
    let effects = gs.apply(GameEvent::Frame, &clock(5_000_000_000, 5_000_000_000));
    assert!(effects.collision_p1);
    assert!(effects.collision_p2);
    assert!(!effects.score_p2);
    assert!(!gs.spaceship_p1.is_alive);
    assert!(!gs.spaceship_p2.is_alive);
    assert_eq!(gs.spaceship_p2.body.rect.y, 540);
}

#[test]
fn player_moves() {
    let mut gs = match_with(vec![]);
    let c = clock(0, 0);
    // At the start the craft stands on the lower edge.
    assert_eq!(gs.apply(GameEvent::MoveDown, &c), Effects::none());
    assert_eq!(gs.spaceship_p1.body.rect.y, 540);
    assert_eq!(gs.apply(GameEvent::MoveUp, &c), Effects::none());
    assert_eq!(gs.spaceship_p1.body.rect.y, 532);
    assert_eq!(gs.spaceship_p1.head.triangle_y, [532, 507, 532]);
    assert_eq!(gs.apply(GameEvent::MoveDown, &c), Effects::none());
    assert_eq!(gs.spaceship_p1.body.rect.y, 540);
    // The second craft does not follow the player.
    assert_eq!(gs.spaceship_p2.body.rect.y, 540);
}

#[test]
fn player_scores_when_the_craft_leaves_at_the_top() {
    let mut gs = match_with(vec![]);
    gs.spaceship_p1 = Spaceship::new(188, -70);
    let c = clock(0, 0);
    let effects = gs.apply(GameEvent::MoveUp, &c);
    assert_eq!(
        effects,
        Effects {
            collision_p1: false,
            collision_p2: false,
            score_p1: true,
            score_p2: false,
            redraw: false
        }
    );
    assert_eq!(gs.score_p1, 1);
    assert_eq!(gs.score_p2, 0);
    assert_eq!((gs.spaceship_p1.body.rect.x, gs.spaceship_p1.body.rect.y), (188, 540));
    assert_eq!(gs.spaceship_p1.death_instant, c.now);
}

#[test]
fn dead_player_does_not_move() {
    let mut gs = match_with(vec![]);
    gs.spaceship_p1.move_upward();
    gs.spaceship_p1.die();
    let c = clock(5_000_000_000, 0);
    assert_eq!(gs.apply(GameEvent::MoveUp, &c), Effects::none());
    assert_eq!(gs.spaceship_p1.body.rect.y, 532);
    assert_eq!(gs.apply(GameEvent::MoveDown, &c), Effects::none());
    assert_eq!(gs.spaceship_p1.body.rect.y, 532);
    assert!(!gs.spaceship_p1.is_alive);
}

#[test]
fn flags_follow_quit_and_restart() {
    let mut gs = match_with(vec![Missile::at(100, 50, MissileDirection::Left)]);
    let c = clock(0, 0);
    assert_eq!(gs.apply(GameEvent::Other, &c), Effects::none());
    assert!(!gs.is_game_over);
    assert!(!gs.is_game_restarted);
    assert_eq!(gs.apply(GameEvent::Quit, &c), Effects::none());
    assert!(gs.is_game_over);
    assert!(!gs.is_game_restarted);
    assert_eq!(gs.apply(GameEvent::Restart, &c), Effects::none());
    assert!(gs.is_game_over);
    assert!(gs.is_game_restarted);
    assert_eq!(gs.missiles[0].x, 100);
    assert_eq!(gs.spaceship_p1.body.rect.y, 540);
}

#[test]
fn events_with_the_real_clock() {
    let mut gs = GameState::start(20, 45);
    let effects = handle_game_events(&mut gs, GameEvent::Frame);
    assert!(effects.redraw);
    assert!(!effects.collision_p1);
    assert!(!effects.collision_p2);
    assert_eq!(gs.missiles.len(), 20);
    assert_eq!(gs.spaceship_p2.body.rect.y, 532);
    assert_eq!(gs.spaceship_p1.body.rect.y, 540);
    let effects = handle_game_events(&mut gs, GameEvent::MoveUp);
    assert_eq!(effects, Effects::none());
    assert_eq!(gs.spaceship_p1.body.rect.y, 532);
    handle_game_events(&mut gs, GameEvent::Quit);
    assert!(gs.is_game_over);
}

#[test]
fn dead_craft_comes_back_with_the_real_clock() {
    let mut gs = match_with(vec![]);
    gs.spaceship_p1.die();
    gs.spaceship_p2.die();
    handle_game_events(&mut gs, GameEvent::Frame);
    assert!(!gs.spaceship_p1.is_alive);
    assert!(!gs.spaceship_p2.is_alive);
    let past = Instant::now().checked_sub(Duration::from_millis(1500)).unwrap();
    gs.spaceship_p1.death_instant = past;
    gs.spaceship_p2.death_instant = past;
    let c = gs.read_clock();
    assert!(c.since_death_p1 >= 1_500_000_000);
    assert!(c.since_death_p2 >= 1_500_000_000);
    handle_game_events(&mut gs, GameEvent::Frame);
    assert!(gs.spaceship_p1.is_alive);
    assert!(gs.spaceship_p2.is_alive);
    assert_eq!(gs.spaceship_p2.body.rect.y, 540);
}

#[test]
fn frame_event_is_a_plain_marker() {
    assert_eq!(FrameEvent, FrameEvent);
}

#[test]
fn effects_do_not_depend_on_the_clock() {
    let missiles = || {
        vec![
            Missile::at(171, 550, MissileDirection::Right),
            Missile::at(400, 100, MissileDirection::Left),
        ]
    };
    let mut first = match_with(missiles());
    let mut second = match_with(missiles());
    first.spaceship_p2 = Spaceship::new(588, -70);
    second.spaceship_p2 = Spaceship::new(588, -70);
    let early = clock(0, 0);
    let late = clock(9_000_000_000, 9_000_000_000);
    assert_eq!(first.apply(GameEvent::Frame, &early), second.apply(GameEvent::Frame, &late));
    assert_eq!(first.apply(GameEvent::MoveUp, &early), second.apply(GameEvent::MoveUp, &late));
}

#[test]
fn a_long_match_keeps_its_roster_and_its_shapes() {
    let mut gs = GameState::start(20, 45);
    let mut scores = 0;
    for n in 0..3000 {
        let before = gs.score_p2;
        let event = if n % 3 == 0 { GameEvent::MoveUp } else { GameEvent::Frame };
        let effects = handle_game_events(&mut gs, event);
        assert_eq!(gs.missiles.len(), 20);
        for m in &gs.missiles {
            assert!(-2 <= m.x && m.x <= 802);
            assert!(0 <= m.y && m.y <= 400);
            assert_eq!(m.body.rect.x, m.x);
            assert_eq!(m.body.rect.y, m.y);
        }
        for s in [&gs.spaceship_p1, &gs.spaceship_p2] {
            let y = s.body.rect.y;
            assert!(-78 < y && y <= 540);
            assert_eq!(s.head.triangle_y, [y as i16, y as i16 - 25, y as i16]);
            assert_eq!(s.tail.left_triangle_y, [y as i16 + 42, y as i16 + 78, y as i16 + 60]);
        }
        assert_eq!(gs.score_p2, before + if effects.score_p2 { 1 } else { 0 });
        scores += if effects.score_p2 { 1 } else { 0 };
    }
    assert_eq!(gs.score_p2, scores);
}
