//! The events that drive a match, and what the match does on each of them.

use crate::game_state::dead_since;
use crate::game_state::ClockReading;
use crate::game_state::Effects;
use crate::game_state::GameState;
use crate::game_state::GameStateView;
use crate::missile::Missile;
use crate::spaceship::Spaceship;
use crate::spaceship::SPACESHIP_DEATH_TIME;
use crate::spaceship::SPACESHIP_P1_X;
use crate::spaceship::SPACESHIP_P1_Y;
use crate::spaceship::SPACESHIP_P2_X;
use crate::spaceship::SPACESHIP_P2_Y;
use vstd::prelude::*;

verus! {

/// The marker of the periodic tick: the timer raises one every frame.
#[derive(Clone, Copy, Debug, PartialEq, Eq, Structural)]
pub struct FrameEvent;

/// An event as the match sees it.
#[derive(Clone, Copy, Debug, PartialEq, Eq, Structural)]
pub enum GameEvent {
    /// The periodic tick.
    Frame,
    /// The window was closed or the escape key pressed.
    Quit,
    /// The player asks the craft to move up.
    MoveUp,
    /// The player asks the craft to move down.
    MoveDown,
    /// The player asks for a new match.
    Restart,
    /// Anything else: the match ignores it.
    Other,
}

impl GameStateView {
    /// The match after an event. A frame plays one step of the simulation;
    /// the player's moves act on the first craft; quitting and restarting
    /// raise their flag; anything else leaves the match as it is.
    pub open spec fn after_event(self, event: GameEvent, clock: ClockReading) -> GameStateView {
        match event {
            GameEvent::Frame => self.after_frame(clock),
            GameEvent::Quit => GameStateView { is_game_over: true, ..self },
            GameEvent::MoveUp => self.with_p1_moved_up(clock.now),
            GameEvent::MoveDown => self.with_p1_moved_down(),
            GameEvent::Restart => GameStateView { is_game_restarted: true, ..self },
            GameEvent::Other => self,
        }
    }

    /// The sounds and the picture that an event calls for.
    pub open spec fn effects_of(self, event: GameEvent, clock: ClockReading) -> Effects {
        match event {
            GameEvent::Frame => self.frame_effects(clock),
            GameEvent::MoveUp => Effects { score_p1: self.p1_scores(), ..Effects::spec_none() },
            _ => Effects::spec_none(),
        }
    }
}

impl GameState {
    /// Whether the match can take one more event: it is well formed and
    /// neither score is at the end of its range.
    pub open spec fn can_handle(&self) -> bool {
        &&& self@.wf()
        &&& self.score_p1 < u32::MAX
        &&& self.score_p2 < u32::MAX
    }

    /// Handles one event, given what the clock said when it arrived.
    pub fn apply(&mut self, event: GameEvent, clock: &ClockReading) -> (effects: Effects)
        requires
            old(self).can_handle(),
        ensures
            final(self)@ == old(self)@.after_event(event, *clock),
            effects == old(self)@.effects_of(event, *clock),
            final(self)@.wf(),
    {
        match event {
            GameEvent::Frame => self.play_frame(clock),
            GameEvent::Quit => {
                self.is_game_over = true;
                assert(self@.missiles =~= old(self)@.missiles);
                Effects::none()
            },
            GameEvent::MoveUp => {
                let scored = self.move_p1_upward(clock.now);
                Effects {
                    collision_p1: false,
                    collision_p2: false,
                    score_p1: scored,
                    score_p2: false,
                    redraw: false,
                }
            },
            GameEvent::MoveDown => {
                self.move_p1_downward();
                Effects::none()
            },
            GameEvent::Restart => {
                self.is_game_restarted = true;
                assert(self@.missiles =~= old(self)@.missiles);
                Effects::none()
            },
            GameEvent::Other => {
                assert(self@.missiles =~= old(self)@.missiles);
                Effects::none()
            },
        }
    }
}

/// Handles one event at the time the clock shows. The match ends up as
/// `after_event` says for what the clock said. The effects are those of
/// `effects_of`, on which the clock has no influence.
pub fn handle_game_events(gs: &mut GameState, event: GameEvent) -> (effects: Effects)
    requires
        old(gs).can_handle(),
    ensures
        exists|clock: ClockReading| final(gs)@ == old(gs)@.after_event(event, clock),
        forall|clock: ClockReading| effects == #[trigger] old(gs)@.effects_of(event, clock),
        final(gs)@.wf(),
{
    let clock = gs.read_clock();
    proof {
        let state = gs@;
        assert forall|other: ClockReading| state.effects_of(event, clock) == #[trigger] state.effects_of(
            event,
            other,
        ) by {
            lemma_effects_ignore_clock(state, event, clock, other);
        }
    }
    gs.apply(event, &clock)
}

/// The sounds and the picture that an event calls for depend on the match
/// and on the event alone, not on the clock.
pub proof fn lemma_effects_ignore_clock(
    state: GameStateView,
    event: GameEvent,
    clock: ClockReading,
    other: ClockReading,
)
    ensures
        state.effects_of(event, clock) == state.effects_of(event, other),
{
}

/// Every event keeps the match well formed: the projectiles and the crafts
/// keep the shapes derived from their positions, and no craft in play is
/// beyond the upper edge.
pub proof fn lemma_events_keep_match_well_formed(
    state: GameStateView,
    event: GameEvent,
    clock: ClockReading,
)
    requires
        state.wf(),
    ensures
        state.after_event(event, clock).wf(),
{
    let next = state.after_event(event, clock);
    assert forall|i: int| 0 <= i < next.missiles.len() implies (#[trigger] next.missiles[i]).wf() by {
        assert(state.missiles[i].wf());
        Missile::lemma_update_keeps_shape(state.missiles[i]);
    }
}

/// The roster of projectiles keeps its size through every event.
pub proof fn lemma_roster_is_fixed(state: GameStateView, event: GameEvent, clock: ClockReading)
    ensures
        state.after_event(event, clock).missiles.len() == state.missiles.len(),
{
}

/// An event never lowers a score. It raises a score by one exactly when the
/// effects announce that the craft scored, and only a living craft scores.
pub proof fn lemma_scores_follow_effects(
    state: GameStateView,
    event: GameEvent,
    clock: ClockReading,
)
    requires
        state.score_p1 < u32::MAX,
        state.score_p2 < u32::MAX,
    ensures
        ({
            let next = state.after_event(event, clock);
            let effects = state.effects_of(event, clock);
            &&& next.score_p1 == state.score_p1 + (if effects.score_p1 {
                1int
            } else {
                0int
            })
            &&& next.score_p2 == state.score_p2 + (if effects.score_p2 {
                1int
            } else {
                0int
            })
            &&& effects.score_p1 ==> state.spaceship_p1.is_alive
            &&& effects.score_p2 ==> state.spaceship_p2.is_alive
        }),
{
}

/// A dead craft is absent from play: no projectile hits it, and the player's
/// moves do nothing to it.
pub proof fn lemma_dead_craft_is_absent(state: GameStateView, clock: ClockReading)
    ensures
        !state.spaceship_p1.is_alive ==> {
            &&& !state.effects_of(GameEvent::Frame, clock).collision_p1
            &&& state.after_event(GameEvent::MoveUp, clock) == state
            &&& state.after_event(GameEvent::MoveDown, clock) == state
        },
        !state.spaceship_p2.is_alive ==> !state.effects_of(GameEvent::Frame, clock).collision_p2,
{
}

/// A craft stays dead through a frame unless it was dead before the frame
/// and more than the cooldown has passed since its death; in that case the
/// frame ends with a living craft at its starting place.
pub proof fn lemma_respawn_waits_for_cooldown(state: GameStateView, clock: ClockReading)
    ensures
        ({
            let next = state.after_event(GameEvent::Frame, clock);
            &&& !state.spaceship_p1.is_alive ==> (next.spaceship_p1.is_alive <==> clock.since_death_p1
                > SPACESHIP_DEATH_TIME)
            &&& !state.spaceship_p2.is_alive ==> (next.spaceship_p2.is_alive <==> clock.since_death_p2
                > SPACESHIP_DEATH_TIME)
            &&& !state.spaceship_p1.is_alive && next.spaceship_p1.is_alive ==> next.spaceship_p1
                == Spaceship::spec_placed(SPACESHIP_P1_X, SPACESHIP_P1_Y, true, clock.now)
            &&& !state.spaceship_p2.is_alive && next.spaceship_p2.is_alive ==> next.spaceship_p2
                == Spaceship::spec_placed(SPACESHIP_P2_X, SPACESHIP_P2_Y, true, clock.now)
            &&& !state.spaceship_p1.is_alive && !next.spaceship_p1.is_alive ==> next.spaceship_p1
                == state.spaceship_p1
            &&& !state.spaceship_p2.is_alive && !next.spaceship_p2.is_alive ==> next.spaceship_p2
                == state.spaceship_p2
        }),
{
}

/// A living craft that a projectile touches after the projectiles of a
/// frame have moved is dead when the frame ends, and dead since the frame's
/// instant.
pub proof fn lemma_hit_craft_dies(state: GameStateView, clock: ClockReading)
    ensures
        ({
            let next = state.after_event(GameEvent::Frame, clock);
            let effects = state.effects_of(GameEvent::Frame, clock);
            &&& effects.collision_p1 ==> next.spaceship_p1 == dead_since(
                state.spaceship_p1,
                clock.now,
            )
            &&& effects.collision_p2 ==> next.spaceship_p2 == dead_since(
                state.spaceship_p2,
                clock.now,
            )
        }),
{
}

} // verus!
