//! The state of a match: the projectiles, both crafts, the scores, the clock
//! of the match and the flags that end or restart it.

use crate::missile::Missile;
use crate::missile::MISSILE_SPAWN_MAX_X;
use crate::missile::MISSILE_SPAWN_MAX_Y;
use crate::missile::ToPoints;
use crate::spaceship::Spaceship;
use crate::spaceship::SPACESHIP_P1_X;
use crate::spaceship::SPACESHIP_P1_Y;
use crate::spaceship::SPACESHIP_P2_X;
use crate::spaceship::SPACESHIP_P2_Y;
use crate::spaceship::SPACESHIP_SPEED;
use crate::spaceship::SPACESHIP_TAIL_SIZE;
use crate::time::nanos_since;
use crate::time::NANOS_PER_SECOND;
use std::time::Instant;
use vstd::prelude::*;

verus! {

/// Everything a match consists of. The first craft is the player's, the
/// second one flies by itself.
pub struct GameState {
    pub missiles: Vec<Missile>,
    pub spaceship_p1: Spaceship,
    pub spaceship_p2: Spaceship,
    pub is_game_over: bool,
    pub is_game_restarted: bool,
    pub score_p1: u32,
    pub score_p2: u32,
    pub starting_time: Instant,
    /// How long a match lasts, in seconds.
    pub game_duration: u64,
}

/// A match as a mathematical value: the projectiles as a sequence.
pub struct GameStateView {
    pub missiles: Seq<Missile>,
    pub spaceship_p1: Spaceship,
    pub spaceship_p2: Spaceship,
    pub is_game_over: bool,
    pub is_game_restarted: bool,
    pub score_p1: u32,
    pub score_p2: u32,
    pub starting_time: Instant,
    pub game_duration: u64,
}

/// What the clock says when an event is handled: the instant itself, and the
/// time in nanoseconds since each craft last died.
pub struct ClockReading {
    pub now: Instant,
    pub since_death_p1: u128,
    pub since_death_p2: u128,
}

/// What the caller owes the players after an event: a sound for each craft
/// that died or scored, and a new picture after a frame.
#[derive(Clone, Copy, Debug, PartialEq, Eq, Structural)]
pub struct Effects {
    pub collision_p1: bool,
    pub collision_p2: bool,
    pub score_p1: bool,
    pub score_p2: bool,
    pub redraw: bool,
}

impl Effects {
    /// No sound and no new picture.
    pub open spec fn spec_none() -> Effects {
        Effects {
            collision_p1: false,
            collision_p2: false,
            score_p1: false,
            score_p2: false,
            redraw: false,
        }
    }

    #[verifier::when_used_as_spec(spec_none)]
    pub fn none() -> (e: Effects)
        ensures
            e == Effects::spec_none(),
    {
        Effects {
            collision_p1: false,
            collision_p2: false,
            score_p1: false,
            score_p2: false,
            redraw: false,
        }
    }
}

impl View for GameState {
    type V = GameStateView;

    open spec fn view(&self) -> GameStateView {
        GameStateView {
            missiles: self.missiles@,
            spaceship_p1: self.spaceship_p1,
            spaceship_p2: self.spaceship_p2,
            is_game_over: self.is_game_over,
            is_game_restarted: self.is_game_restarted,
            score_p1: self.score_p1,
            score_p2: self.score_p2,
            starting_time: self.starting_time,
            game_duration: self.game_duration,
        }
    }
}

/// Whether a craft has crossed the upper edge of the screen with all of its
/// shape, the tail included.
pub open spec fn has_scored(spaceship: Spaceship) -> bool {
    spaceship.body.rect.y + spaceship.body.rect.height + SPACESHIP_TAIL_SIZE <= 0
}

/// A craft as it is after a projectile has hit it at `now`.
pub open spec fn dead_since(spaceship: Spaceship, now: Instant) -> Spaceship {
    Spaceship { is_alive: false, death_instant: now, ..spaceship }
}

/// A craft in play: well formed, and not beyond the upper edge, since a craft
/// that crosses it is replaced at once.
pub open spec fn in_play(spaceship: Spaceship) -> bool {
    spaceship.wf() && !has_scored(spaceship)
}

impl GameStateView {
    /// The invariant of a match: every projectile is well formed and both
    /// crafts are in play.
    pub open spec fn wf(self) -> bool {
        &&& forall|i: int| 0 <= i < self.missiles.len() ==> (#[trigger] self.missiles[i]).wf()
        &&& in_play(self.spaceship_p1)
        &&& in_play(self.spaceship_p2)
    }

    /// A match as it is set up: `m_quantity` well-formed projectiles in the
    /// band above the crafts, both crafts alive at their starting places, no
    /// score, nobody has quit, and the duration is `g_duration` seconds.
    pub open spec fn is_set_up(self, m_quantity: usize, g_duration: u64) -> bool {
        &&& self.missiles.len() == m_quantity
        &&& forall|i: int|
            0 <= i < self.missiles.len() ==> {
                &&& (#[trigger] self.missiles[i]).wf()
                &&& 0 <= self.missiles[i].x <= MISSILE_SPAWN_MAX_X
                &&& 0 <= self.missiles[i].y <= MISSILE_SPAWN_MAX_Y
            }
        &&& self.spaceship_p1 == Spaceship::spec_placed(
            SPACESHIP_P1_X,
            SPACESHIP_P1_Y,
            true,
            self.spaceship_p1.death_instant,
        )
        &&& self.spaceship_p2 == Spaceship::spec_placed(
            SPACESHIP_P2_X,
            SPACESHIP_P2_Y,
            true,
            self.spaceship_p2.death_instant,
        )
        &&& !self.is_game_over
        &&& self.score_p1 == 0
        &&& self.score_p2 == 0
        &&& self.game_duration == g_duration
    }

    /// Whether at least one projectile touches the craft.
    pub open spec fn collision_occurred_for(self, spaceship: Spaceship) -> bool {
        exists|i: int|
            0 <= i < self.missiles.len() && spaceship.spec_collide_with(
                &#[trigger] self.missiles[i],
            )
    }

    /// The match after every projectile has been updated.
    pub open spec fn with_missiles_updated(self) -> GameStateView {
        GameStateView {
            missiles: Seq::new(self.missiles.len(), |i: int| self.missiles[i].spec_update()),
            ..self
        }
    }

    /// Whether the first craft is alive and touched by a projectile.
    pub open spec fn p1_is_hit(self) -> bool {
        self.spaceship_p1.is_alive && self.collision_occurred_for(self.spaceship_p1)
    }

    /// Whether the second craft is alive and touched by a projectile.
    pub open spec fn p2_is_hit(self) -> bool {
        self.spaceship_p2.is_alive && self.collision_occurred_for(self.spaceship_p2)
    }

    /// The match after each living craft that a projectile touches has died
    /// at `now`.
    pub open spec fn with_collisions(self, now: Instant) -> GameStateView {
        GameStateView {
            spaceship_p1: if self.p1_is_hit() {
                dead_since(self.spaceship_p1, now)
            } else {
                self.spaceship_p1
            },
            spaceship_p2: if self.p2_is_hit() {
                dead_since(self.spaceship_p2, now)
            } else {
                self.spaceship_p2
            },
            ..self
        }
    }

    /// Whether the second craft scores when it is advanced: it is alive and
    /// one move up takes it beyond the upper edge.
    pub open spec fn p2_scores(self) -> bool {
        self.spaceship_p2.is_alive && has_scored(self.spaceship_p2.moved(-SPACESHIP_SPEED))
    }

    /// The match after the second craft has been advanced. A dead craft comes
    /// back at its starting place if it may, and stays away if not. A living
    /// one moves up; if that takes it beyond the upper edge, its score grows
    /// by one and a new craft takes its starting place.
    pub open spec fn with_cpu_advanced(self, may_respawn: bool, now: Instant) -> GameStateView {
        if !self.spaceship_p2.is_alive {
            if may_respawn {
                GameStateView {
                    spaceship_p2: Spaceship::spec_placed(SPACESHIP_P2_X, SPACESHIP_P2_Y, true, now),
                    ..self
                }
            } else {
                self
            }
        } else if self.p2_scores() {
            GameStateView {
                spaceship_p2: Spaceship::spec_placed(SPACESHIP_P2_X, SPACESHIP_P2_Y, true, now),
                score_p2: (self.score_p2 + 1) as u32,
                ..self
            }
        } else {
            GameStateView { spaceship_p2: self.spaceship_p2.moved(-SPACESHIP_SPEED), ..self }
        }
    }

    /// The match after the first craft, if it is dead and may come back, has
    /// been replaced by a new one at its starting place.
    pub open spec fn with_p1_respawned(self, may_respawn: bool, now: Instant) -> GameStateView {
        if !self.spaceship_p1.is_alive && may_respawn {
            GameStateView {
                spaceship_p1: Spaceship::spec_placed(SPACESHIP_P1_X, SPACESHIP_P1_Y, true, now),
                ..self
            }
        } else {
            self
        }
    }

    /// Whether the first craft scores when it is asked to move up.
    pub open spec fn p1_scores(self) -> bool {
        self.spaceship_p1.is_alive && has_scored(self.spaceship_p1.moved(-SPACESHIP_SPEED))
    }

    /// The match after the first craft has been asked to move up. A dead
    /// craft ignores it. A living one moves up; if that takes it beyond the
    /// upper edge, its score grows by one and a new craft takes its starting
    /// place.
    pub open spec fn with_p1_moved_up(self, now: Instant) -> GameStateView {
        if !self.spaceship_p1.is_alive {
            self
        } else if self.p1_scores() {
            GameStateView {
                spaceship_p1: Spaceship::spec_placed(SPACESHIP_P1_X, SPACESHIP_P1_Y, true, now),
                score_p1: (self.score_p1 + 1) as u32,
                ..self
            }
        } else {
            GameStateView { spaceship_p1: self.spaceship_p1.moved(-SPACESHIP_SPEED), ..self }
        }
    }

    /// The match after the first craft has been asked to move down: it does
    /// so if it is alive and the move keeps it on the screen.
    pub open spec fn with_p1_moved_down(self) -> GameStateView {
        if self.spaceship_p1.is_alive && self.spaceship_p1.spec_can_move_downward() {
            GameStateView {
                spaceship_p1: self.spaceship_p1.moved(SPACESHIP_SPEED as int),
                ..self
            }
        } else {
            self
        }
    }

    /// What a frame calls for: a sound for each craft that a projectile
    /// touches once the projectiles have moved, a sound if the second craft
    /// scores, and a new picture.
    pub open spec fn frame_effects(self, clock: ClockReading) -> Effects {
        Effects {
            collision_p1: self.with_missiles_updated().p1_is_hit(),
            collision_p2: self.with_missiles_updated().p2_is_hit(),
            score_p1: false,
            score_p2: self.with_missiles_updated().with_collisions(clock.now).p2_scores(),
            redraw: true,
        }
    }

    /// The match after one frame. In this order: every projectile is
    /// updated; each living craft that a projectile now touches dies; the
    /// second craft is advanced; the first craft comes back if it may. A craft
    /// may come back if it was dead before the frame and its cooldown has
    /// passed.
    pub open spec fn after_frame(self, clock: ClockReading) -> GameStateView {
        self.with_missiles_updated().with_collisions(clock.now).with_cpu_advanced(
            Spaceship::spec_respawn_due(self.spaceship_p2.is_alive, clock.since_death_p2),
            clock.now,
        ).with_p1_respawned(
            Spaceship::spec_respawn_due(self.spaceship_p1.is_alive, clock.since_death_p1),
            clock.now,
        )
    }
}

impl GameState {
    /// Sets up a match of `g_duration` seconds with `m_quantity` projectiles
    /// spawned at random over the band above the crafts, both crafts at
    /// their starting places and no score. The match is flagged as restarted:
    /// the caller clears the flag when play begins.
    pub fn new(m_quantity: usize, g_duration: u64) -> (gs: GameState)
        ensures
            gs@.is_set_up(m_quantity, g_duration),
            gs.is_game_restarted,
            gs@.wf(),
    {
        let mut random_missiles: Vec<Missile> = Vec::new();
        let mut n: usize = 0;
        while n < m_quantity
            invariant
                n <= m_quantity,
                random_missiles@.len() == n,
                forall|i: int|
                    0 <= i < n ==> (#[trigger] random_missiles@[i]).wf() && 0
                        <= random_missiles@[i].x <= MISSILE_SPAWN_MAX_X && 0
                        <= random_missiles@[i].y <= MISSILE_SPAWN_MAX_Y,
            decreases m_quantity - n,
        {
            random_missiles.push(Missile::new());
            n += 1;
        }
        GameState {
            is_game_over: false,
            is_game_restarted: true,
            missiles: random_missiles,
            spaceship_p1: Spaceship::new(SPACESHIP_P1_X, SPACESHIP_P1_Y),
            spaceship_p2: Spaceship::new(SPACESHIP_P2_X, SPACESHIP_P2_Y),
            score_p1: 0,
            score_p2: 0,
            starting_time: Instant::now(),
            game_duration: g_duration,
        }
    }

    /// Sets up a match as `new` does and opens play: the restart flag is
    /// cleared.
    pub fn start(m_quantity: usize, g_duration: u64) -> (gs: GameState)
        ensures
            gs@.is_set_up(m_quantity, g_duration),
            !gs.is_game_restarted,
            gs@.wf(),
    {
        let mut gs = GameState::new(m_quantity, g_duration);
        let ghost fresh = gs@;
        gs.is_game_restarted = false;
        assert(gs@.missiles =~= fresh.missiles);
        assert(gs@ == (GameStateView { is_game_restarted: false, ..fresh }));
        gs
    }

    /// Whether play goes on: nobody has quit or asked for a new match, and
    /// the time is not over.
    pub open spec fn spec_keeps_running(&self, elapsed_nanos: u128) -> bool {
        &&& !self.is_game_over
        &&& !self.is_game_restarted
        &&& !GameState::spec_has_elapsed(elapsed_nanos, self.game_duration)
    }

    /// Decides whether play goes on, `elapsed_nanos` nanoseconds after the
    /// match began.
    #[verifier::when_used_as_spec(spec_keeps_running)]
    pub fn keeps_running(&self, elapsed_nanos: u128) -> (r: bool)
        ensures
            r == self.spec_keeps_running(elapsed_nanos),
    {
        !self.is_game_over && !self.is_game_restarted && !GameState::has_elapsed(
            elapsed_nanos,
            self.game_duration,
        )
    }

    /// Whether a craft has left the screen at the top, tail and all.
    pub fn has_spaceship_scored(spaceship: &Spaceship) -> (r: bool)
        ensures
            r == has_scored(*spaceship),
    {
        spaceship.body.rect.y as i64 + spaceship.body.rect.height as i64 + SPACESHIP_TAIL_SIZE as i64
            <= 0
    }

    /// Replaces the first craft by a new one at its starting place.
    pub fn reset_spaceship_p1(&mut self)
        ensures
            final(self)@ == (GameStateView {
                spaceship_p1: Spaceship::spec_placed(
                    SPACESHIP_P1_X,
                    SPACESHIP_P1_Y,
                    true,
                    final(self).spaceship_p1.death_instant,
                ),
                ..old(self)@
            }),
    {
        self.spaceship_p1 = Spaceship::new(SPACESHIP_P1_X, SPACESHIP_P1_Y);
    }

    /// Replaces the second craft by a new one at its starting place.
    pub fn reset_spaceship_p2(&mut self)
        ensures
            final(self)@ == (GameStateView {
                spaceship_p2: Spaceship::spec_placed(
                    SPACESHIP_P2_X,
                    SPACESHIP_P2_Y,
                    true,
                    final(self).spaceship_p2.death_instant,
                ),
                ..old(self)@
            }),
    {
        self.spaceship_p2 = Spaceship::new(SPACESHIP_P2_X, SPACESHIP_P2_Y);
    }

    /// Whether a match of `game_duration` seconds is over once
    /// `elapsed_nanos` nanoseconds have passed: the time passed exceeds the
    /// duration.
    pub open spec fn spec_has_elapsed(elapsed_nanos: u128, game_duration: u64) -> bool {
        elapsed_nanos > game_duration * NANOS_PER_SECOND
    }

    /// Decides whether a match is over, from the time in nanoseconds that has
    /// passed since it began and from its duration in seconds.
    #[verifier::when_used_as_spec(spec_has_elapsed)]
    pub fn has_elapsed(elapsed_nanos: u128, game_duration: u64) -> (r: bool)
        ensures
            r == GameState::spec_has_elapsed(elapsed_nanos, game_duration),
    {
        elapsed_nanos > game_duration as u128 * NANOS_PER_SECOND
    }

    /// Whether the match has lasted longer than its duration. The clock
    /// decides.
    pub fn is_game_elapsed(&self) -> (r: bool) {
        GameState::has_elapsed(nanos_since(&self.starting_time), self.game_duration)
    }

    /// Whether at least one projectile of the match touches the craft.
    pub fn collision_occurred_for(&self, spaceship: &Spaceship) -> (r: bool)
        requires
            forall|i: int| 0 <= i < self.missiles@.len() ==> (#[trigger] self.missiles@[i]).has_points(),
        ensures
            r == self@.collision_occurred_for(*spaceship),
    {
        let mut i: usize = 0;
        while i < self.missiles.len()
            invariant
                i <= self.missiles@.len(),
                forall|j: int|
                    0 <= j < self.missiles@.len() ==> (#[trigger] self.missiles@[j]).has_points(),
                forall|j: int|
                    0 <= j < i ==> !spaceship.spec_collide_with(&#[trigger] self.missiles@[j]),
            decreases self.missiles@.len() - i,
        {
            if spaceship.collide_with(&self.missiles[i]) {
                assert(spaceship.spec_collide_with(&self@.missiles[i as int]));
                return true;
            }
            i += 1;
        }
        false
    }

    /// Reads the clock once for the event that is about to be handled.
    pub fn read_clock(&self) -> (clock: ClockReading) {
        ClockReading {
            now: Instant::now(),
            since_death_p1: nanos_since(&self.spaceship_p1.death_instant),
            since_death_p2: nanos_since(&self.spaceship_p2.death_instant),
        }
    }

    /// Updates every projectile.
    pub fn update_missiles(&mut self)
        requires
            old(self)@.wf(),
        ensures
            final(self)@ == old(self)@.with_missiles_updated(),
            final(self)@.wf(),
    {
        let mut i: usize = 0;
        assert forall|j: int| 0 <= j < self.missiles@.len() implies (#[trigger] self.missiles@[j]).wf() by {
            assert(self@.missiles[j].wf());
        }
        while i < self.missiles.len()
            invariant
                i <= self.missiles@.len(),
                self.missiles@.len() == old(self).missiles@.len(),
                forall|j: int| 0 <= j < i ==> self.missiles@[j] == old(self).missiles@[j].spec_update(),
                forall|j: int|
                    i <= j < self.missiles@.len() ==> self.missiles@[j] == old(self).missiles@[j],
                forall|j: int| 0 <= j < self.missiles@.len() ==> (#[trigger] self.missiles@[j]).wf(),
                self.spaceship_p1 == old(self).spaceship_p1,
                self.spaceship_p2 == old(self).spaceship_p2,
                self.is_game_over == old(self).is_game_over,
                self.is_game_restarted == old(self).is_game_restarted,
                self.score_p1 == old(self).score_p1,
                self.score_p2 == old(self).score_p2,
                self.starting_time == old(self).starting_time,
                self.game_duration == old(self).game_duration,
            decreases self.missiles@.len() - i,
        {
            self.missiles[i].update();
            i += 1;
        }
        assert(self@.missiles =~= old(self)@.with_missiles_updated().missiles);
    }

    /// Lets each living craft that a projectile touches die at `now`. Tells
    /// for each craft whether it died.
    pub fn resolve_collisions(&mut self, now: Instant) -> (hit: (bool, bool))
        requires
            old(self)@.wf(),
        ensures
            hit.0 == old(self)@.p1_is_hit(),
            hit.1 == old(self)@.p2_is_hit(),
            final(self)@ == old(self)@.with_collisions(now),
            final(self)@.wf(),
    {
        assert forall|j: int| 0 <= j < self.missiles@.len() implies (#[trigger] self.missiles@[j]).has_points() by {
            assert(self@.missiles[j].wf());
        }
        let p1_hit = self.spaceship_p1.is_alive && self.collision_occurred_for(&self.spaceship_p1);
        let p2_hit = self.spaceship_p2.is_alive && self.collision_occurred_for(&self.spaceship_p2);
        if p1_hit {
            self.spaceship_p1.die_at(now);
        }
        if p2_hit {
            self.spaceship_p2.die_at(now);
        }
        assert(self@.missiles =~= old(self)@.missiles);
        (p1_hit, p2_hit)
    }

    /// Advances the second craft, which flies by itself: see
    /// `with_cpu_advanced`. Tells whether it scored.
    pub fn update_cpu(&mut self, may_respawn: bool, now: Instant) -> (scored: bool)
        requires
            old(self)@.wf(),
            old(self).score_p2 < u32::MAX,
        ensures
            scored == old(self)@.p2_scores(),
            final(self)@ == old(self)@.with_cpu_advanced(may_respawn, now),
            final(self)@.wf(),
    {
        if !self.spaceship_p2.is_alive {
            if may_respawn {
                self.spaceship_p2 = Spaceship::placed(SPACESHIP_P2_X, SPACESHIP_P2_Y, now);
            }
            assert(self@.missiles =~= old(self)@.missiles);
            return false;
        }
        self.spaceship_p2.move_upward();
        if GameState::has_spaceship_scored(&self.spaceship_p2) {
            self.score_p2 += 1;
            self.spaceship_p2 = Spaceship::placed(SPACESHIP_P2_X, SPACESHIP_P2_Y, now);
            assert(self@.missiles =~= old(self)@.missiles);
            return true;
        }
        assert(self@.missiles =~= old(self)@.missiles);
        false
    }

    /// Brings the first craft back at its starting place if it is dead and
    /// may come back.
    pub fn respawn_p1(&mut self, may_respawn: bool, now: Instant)
        requires
            old(self)@.wf(),
        ensures
            final(self)@ == old(self)@.with_p1_respawned(may_respawn, now),
            final(self)@.wf(),
    {
        if !self.spaceship_p1.is_alive && may_respawn {
            self.spaceship_p1 = Spaceship::placed(SPACESHIP_P1_X, SPACESHIP_P1_Y, now);
        }
        assert(self@.missiles =~= old(self)@.missiles);
    }

    /// Handles the player's request to move up: see `with_p1_moved_up`. Tells
    /// whether the craft scored.
    pub fn move_p1_upward(&mut self, now: Instant) -> (scored: bool)
        requires
            old(self)@.wf(),
            old(self).score_p1 < u32::MAX,
        ensures
            scored == old(self)@.p1_scores(),
            final(self)@ == old(self)@.with_p1_moved_up(now),
            final(self)@.wf(),
    {
        if !self.spaceship_p1.is_alive {
            assert(self@.missiles =~= old(self)@.missiles);
            return false;
        }
        self.spaceship_p1.move_upward();
        if GameState::has_spaceship_scored(&self.spaceship_p1) {
            self.score_p1 += 1;
            self.spaceship_p1 = Spaceship::placed(SPACESHIP_P1_X, SPACESHIP_P1_Y, now);
            assert(self@.missiles =~= old(self)@.missiles);
            return true;
        }
        assert(self@.missiles =~= old(self)@.missiles);
        false
    }

    /// Handles the player's request to move down: the craft does so if it is
    /// alive and the move keeps it on the screen.
    pub fn move_p1_downward(&mut self)
        requires
            old(self)@.wf(),
        ensures
            final(self)@ == old(self)@.with_p1_moved_down(),
            final(self)@.wf(),
    {
        if self.spaceship_p1.is_alive && self.spaceship_p1.can_move_downward() {
            self.spaceship_p1.move_downward();
        }
        assert(self@.missiles =~= old(self)@.missiles);
    }

    /// Plays one frame: see `after_frame` and `frame_effects`.
    pub fn play_frame(&mut self, clock: &ClockReading) -> (effects: Effects)
        requires
            old(self)@.wf(),
            old(self).score_p2 < u32::MAX,
        ensures
            effects == old(self)@.frame_effects(*clock),
            final(self)@ == old(self)@.after_frame(*clock),
            final(self)@.wf(),
    {
        let p1_due = Spaceship::respawn_due(self.spaceship_p1.is_alive, clock.since_death_p1);
        let p2_due = Spaceship::respawn_due(self.spaceship_p2.is_alive, clock.since_death_p2);
        self.update_missiles();
        let hit = self.resolve_collisions(clock.now);
        let scored = self.update_cpu(p2_due, clock.now);
        self.respawn_p1(p1_due, clock.now);
        Effects {
            collision_p1: hit.0,
            collision_p2: hit.1,
            score_p1: false,
            score_p2: scored,
            redraw: true,
        }
    }
}

} // verus!
