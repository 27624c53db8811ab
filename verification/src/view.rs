//! What the picture of a match needs beyond the shapes themselves: where the
//! scores stand and how much of the countdown bar is left.

use crate::geometry::Color;
use crate::geometry::Rect;
use crate::WINDOW_HEIGHT;
use crate::WINDOW_WIDTH;
use vstd::prelude::*;

verus! {

/// The width of the countdown bar (in pixels).
pub const TIMELINE_WIDTH: u32 = 10;

/// The space between the screen's edge and a score (in pixels).
pub const SCORE_PADDING: u32 = 20;

/// The width of a score (in pixels).
pub const SCORE_WIDTH: u32 = 30;

/// The height of a score (in pixels).
pub const SCORE_HEIGHT: u32 = 20;

/// The countdown bar: where it stands and how it is coloured.
#[derive(Clone, Copy, Debug, PartialEq, Eq, Structural)]
pub struct Timeline {
    pub rect: Rect,
    pub color: Color,
}

/// The height of the countdown bar. The bar loses one share of the screen's
/// height with every second; a share is the height divided by the duration,
/// rounded down.
pub open spec fn timeline_height(game_duration: u64, elapsed_secs: u64) -> int {
    (WINDOW_HEIGHT as int / game_duration as int) * (game_duration - elapsed_secs)
}

/// How much green and blue the bar's colour holds: all of it when the match
/// begins, none when it ends, so that the bar turns from white to red.
pub open spec fn timeline_shade(game_duration: u64, elapsed_secs: u64) -> int {
    255 * (game_duration - elapsed_secs) / game_duration as int
}

/// The countdown bar after `elapsed_secs` whole seconds of a match that lasts
/// `game_duration` seconds: none once the time is over, else a bar in the
/// middle of the screen that stands on its lower edge.
pub open spec fn spec_timeline(game_duration: u64, elapsed_secs: u64) -> Option<Timeline> {
    if game_duration < elapsed_secs {
        None
    } else {
        let height = timeline_height(game_duration, elapsed_secs);
        let shade = timeline_shade(game_duration, elapsed_secs);
        Some(
            Timeline {
                rect: Rect {
                    x: (WINDOW_WIDTH / 2 - TIMELINE_WIDTH / 2) as i32,
                    y: (WINDOW_HEIGHT - height) as i32,
                    width: TIMELINE_WIDTH,
                    height: height as u32,
                },
                color: Color { r: 255, g: shade as u8, b: shade as u8, a: 255 },
            },
        )
    }
}

proof fn lemma_timeline_bounds(game_duration: u64, elapsed_secs: u64)
    requires
        0 < game_duration,
        elapsed_secs <= game_duration,
    ensures
        0 <= timeline_height(game_duration, elapsed_secs) <= WINDOW_HEIGHT,
        0 <= timeline_shade(game_duration, elapsed_secs) <= 255,
{
    let d = game_duration as int;
    let r = game_duration - elapsed_secs;
    let share = WINDOW_HEIGHT as int / d;
    assert(0 <= share && share * d <= WINDOW_HEIGHT as int) by (nonlinear_arith)
        requires
            0 < d,
            share == WINDOW_HEIGHT as int / d,
    ;
    assert(0 <= share * r <= share * d) by (nonlinear_arith)
        requires
            0 <= share,
            0 <= r <= d,
    ;
    assert(0 <= 255 * r / d <= 255) by (nonlinear_arith)
        requires
            0 < d,
            0 <= r <= d,
    ;
}

#[verifier::when_used_as_spec(spec_timeline)]
pub fn timeline(game_duration: u64, elapsed_secs: u64) -> (t: Option<Timeline>)
    requires
        0 < game_duration,
    ensures
        t == spec_timeline(game_duration, elapsed_secs),
{
    if game_duration < elapsed_secs {
        return None;
    }
    proof {
        lemma_timeline_bounds(game_duration, elapsed_secs);
    }
    let remaining: u64 = game_duration - elapsed_secs;
    let share: u64 = WINDOW_HEIGHT as u64 / game_duration;
    let height: u32 = (share * remaining) as u32;
    let shade: u8 = (255u128 * remaining as u128 / game_duration as u128) as u8;
    Some(
        Timeline {
            rect: Rect::new(
                (WINDOW_WIDTH / 2 - TIMELINE_WIDTH / 2) as i32,
                (WINDOW_HEIGHT - height) as i32,
                TIMELINE_WIDTH,
                height,
            ),
            color: Color::rgb(255, shade, shade),
        },
    )
}

/// Where the first player's score stands: in the lower left corner.
pub open spec fn spec_score_rect_p1() -> Rect {
    Rect {
        x: SCORE_PADDING as i32,
        y: (WINDOW_HEIGHT - SCORE_HEIGHT - SCORE_PADDING) as i32,
        width: SCORE_WIDTH,
        height: SCORE_HEIGHT,
    }
}

#[verifier::when_used_as_spec(spec_score_rect_p1)]
pub fn score_rect_p1() -> (r: Rect)
    ensures
        r == spec_score_rect_p1(),
{
    Rect::new(
        SCORE_PADDING as i32,
        (WINDOW_HEIGHT - SCORE_HEIGHT - SCORE_PADDING) as i32,
        SCORE_WIDTH,
        SCORE_HEIGHT,
    )
}

/// Where the second player's score stands: in the lower right corner.
pub open spec fn spec_score_rect_p2() -> Rect {
    Rect {
        x: (WINDOW_WIDTH - SCORE_WIDTH - SCORE_PADDING) as i32,
        y: (WINDOW_HEIGHT - SCORE_HEIGHT - SCORE_PADDING) as i32,
        width: SCORE_WIDTH,
        height: SCORE_HEIGHT,
    }
}

#[verifier::when_used_as_spec(spec_score_rect_p2)]
pub fn score_rect_p2() -> (r: Rect)
    ensures
        r == spec_score_rect_p2(),
{
    Rect::new(
        (WINDOW_WIDTH - SCORE_WIDTH - SCORE_PADDING) as i32,
        (WINDOW_HEIGHT - SCORE_HEIGHT - SCORE_PADDING) as i32,
        SCORE_WIDTH,
        SCORE_HEIGHT,
    )
}

} // verus!
