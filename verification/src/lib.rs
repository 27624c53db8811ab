//! Simulation and collision engine of a two-player arcade race: crafts climb
//! the screen while projectiles sweep across it.

pub mod game_event;
pub mod game_over;
pub mod game_state;
pub mod geometry;
pub mod missile;
pub mod spaceship;
pub mod time;
pub mod view;

use vstd::prelude::*;

verus! {

/// Window's width in pixels.
pub const WINDOW_WIDTH: u32 = 800;

/// Window's height in pixels.
pub const WINDOW_HEIGHT: u32 = 600;

/// The time between two frames in milliseconds.
pub const FRAME_DURATION: u32 = 50;

/// The time for one game in seconds.
pub const GAME_DURATION: u64 = 45;

/// The amount of projectiles in the game.
pub const MISSILE_QUANTITY: usize = 20;

} // verus!
