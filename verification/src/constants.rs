//! Fixed parameters of the game.

use vstd::prelude::*;

verus! {

/// Side length of one board cell, in pixels.
pub const CELL_SIZE: i64 = 20;

/// Minimum time between two simulation steps, in milliseconds.
pub const UPDATE_INTERVAL_MS: u64 = 200;

/// Width of the start button, in pixels.
pub const BUTTON_WIDTH: i64 = 120;

/// Height of the start button, in pixels.
pub const BUTTON_HEIGHT: i64 = 40;

/// Distance from the top edge of the start button down to the middle of the
/// board, in pixels.
pub const BUTTON_LIFT: i64 = 50;

} // verus!
