//! How a match that ran out of time is decided, and what the closing screen
//! says about it.

use crate::game_event::GameEvent;
use crate::game_state::GameState;
use crate::geometry::Rect;
use crate::WINDOW_HEIGHT;
use crate::WINDOW_WIDTH;
use vstd::prelude::*;

verus! {

/// How long the closing screen waits for the player, in seconds.
pub const SCREEN_DURATION: u64 = 10;

/// The width of the headline (in pixels).
pub const TITLE_WIDTH: u32 = 200;

/// The height of the headline (in pixels).
pub const TITLE_HEIGHT: u32 = 100;

/// The width of the line that offers a new match (in pixels).
pub const REPLAY_WIDTH: u32 = 600;

/// The height of a line of text (in pixels).
pub const LINE_HEIGHT: u32 = 30;

/// The space between the screen's edge and the text, and between two lines
/// (in pixels).
pub const SCREEN_PADDING: u32 = 20;

/// The result of a match, from the first player's side.
#[derive(Clone, Copy, Debug, PartialEq, Eq, Structural)]
pub enum MatchOutcome {
    Victory,
    Defeat,
    Draw,
}

impl MatchOutcome {
    /// The higher score wins; equal scores are a draw.
    pub open spec fn spec_of_scores(score_p1: u32, score_p2: u32) -> MatchOutcome {
        if score_p1 > score_p2 {
            MatchOutcome::Victory
        } else if score_p1 < score_p2 {
            MatchOutcome::Defeat
        } else {
            MatchOutcome::Draw
        }
    }

    #[verifier::when_used_as_spec(spec_of_scores)]
    pub fn of_scores(score_p1: u32, score_p2: u32) -> (o: MatchOutcome)
        ensures
            o == MatchOutcome::spec_of_scores(score_p1, score_p2),
    {
        if score_p1 > score_p2 {
            MatchOutcome::Victory
        } else if score_p1 < score_p2 {
            MatchOutcome::Defeat
        } else {
            MatchOutcome::Draw
        }
    }

    /// The headline of the closing screen.
    pub fn title(&self) -> (s: &'static str)
        ensures
            s@ == match *self {
                MatchOutcome::Victory => "VICTORY"@,
                MatchOutcome::Defeat => "DEFEAT"@,
                MatchOutcome::Draw => "DRAW"@,
            },
    {
        match self {
            MatchOutcome::Victory => "VICTORY",
            MatchOutcome::Defeat => "DEFEAT",
            MatchOutcome::Draw => "DRAW",
        }
    }

    /// The sentence below the headline.
    pub fn message(&self) -> (s: &'static str)
        ensures
            s@ == match *self {
                MatchOutcome::Victory => "You won! You have nothing to prove anymore!"@,
                MatchOutcome::Defeat => "You lost! Are you going to stop on a defeat ?"@,
                MatchOutcome::Draw => "It's a tie! One single point would have been enough to win!"@,
            },
    {
        match self {
            MatchOutcome::Victory => "You won! You have nothing to prove anymore!",
            MatchOutcome::Defeat => "You lost! Are you going to stop on a defeat ?",
            MatchOutcome::Draw => "It's a tie! One single point would have been enough to win!",
        }
    }
}

impl GameState {
    /// The result of the match as the scores stand.
    pub fn outcome(&self) -> (o: MatchOutcome)
        ensures
            o == MatchOutcome::spec_of_scores(self.score_p1, self.score_p2),
    {
        MatchOutcome::of_scores(self.score_p1, self.score_p2)
    }

    /// The result of the match once `elapsed_nanos` nanoseconds have passed
    /// since it began: none while the match still runs.
    pub fn outcome_after(&self, elapsed_nanos: u128) -> (o: Option<MatchOutcome>)
        ensures
            o == if GameState::spec_has_elapsed(elapsed_nanos, self.game_duration) {
                Some(MatchOutcome::spec_of_scores(self.score_p1, self.score_p2))
            } else {
                None
            },
    {
        if GameState::has_elapsed(elapsed_nanos, self.game_duration) {
            Some(self.outcome())
        } else {
            None
        }
    }
}

/// What an event means on the closing screen: quitting ends the session,
/// asking for a new match starts one, anything else leaves the screen open.
pub open spec fn spec_replay_choice(event: GameEvent) -> Option<bool> {
    match event {
        GameEvent::Quit => Some(false),
        GameEvent::Restart => Some(true),
        _ => None,
    }
}

#[verifier::when_used_as_spec(spec_replay_choice)]
pub fn replay_choice(event: GameEvent) -> (choice: Option<bool>)
    ensures
        choice == spec_replay_choice(event),
{
    match event {
        GameEvent::Quit => Some(false),
        GameEvent::Restart => Some(true),
        _ => None,
    }
}

/// Whether the closing screen still waits after `elapsed_secs` whole seconds.
pub fn is_screen_open(elapsed_secs: u64) -> (r: bool)
    ensures
        r == (elapsed_secs < SCREEN_DURATION),
{
    elapsed_secs < SCREEN_DURATION
}

/// Where the headline stands: centred at the top of the screen.
pub open spec fn spec_title_rect() -> Rect {
    Rect {
        x: (WINDOW_WIDTH / 2 - TITLE_WIDTH / 2) as i32,
        y: 0,
        width: TITLE_WIDTH,
        height: TITLE_HEIGHT,
    }
}

#[verifier::when_used_as_spec(spec_title_rect)]
pub fn title_rect() -> (r: Rect)
    ensures
        r == spec_title_rect(),
{
    Rect::new((WINDOW_WIDTH / 2 - TITLE_WIDTH / 2) as i32, 0, TITLE_WIDTH, TITLE_HEIGHT)
}

/// Where the sentence about the result stands: across the screen, from its
/// middle downwards, with a margin on both sides.
pub open spec fn spec_message_rect() -> Rect {
    Rect {
        x: SCREEN_PADDING as i32,
        y: (WINDOW_HEIGHT / 2) as i32,
        width: (WINDOW_WIDTH - 2 * SCREEN_PADDING) as u32,
        height: LINE_HEIGHT,
    }
}

#[verifier::when_used_as_spec(spec_message_rect)]
pub fn message_rect() -> (r: Rect)
    ensures
        r == spec_message_rect(),
{
    Rect::new(
        SCREEN_PADDING as i32,
        (WINDOW_HEIGHT / 2) as i32,
        WINDOW_WIDTH - 2 * SCREEN_PADDING,
        LINE_HEIGHT,
    )
}

/// Where the offer of a new match stands: centred, one margin below the
/// sentence about the result.
pub open spec fn spec_replay_rect() -> Rect {
    Rect {
        x: (WINDOW_WIDTH / 2 - REPLAY_WIDTH / 2) as i32,
        y: (WINDOW_HEIGHT / 2 + SCREEN_PADDING + LINE_HEIGHT) as i32,
        width: REPLAY_WIDTH,
        height: LINE_HEIGHT,
    }
}

#[verifier::when_used_as_spec(spec_replay_rect)]
pub fn replay_rect() -> (r: Rect)
    ensures
        r == spec_replay_rect(),
{
    Rect::new(
        (WINDOW_WIDTH / 2 - REPLAY_WIDTH / 2) as i32,
        (WINDOW_HEIGHT / 2 + SCREEN_PADDING + LINE_HEIGHT) as i32,
        REPLAY_WIDTH,
        LINE_HEIGHT,
    )
}

} // verus!
