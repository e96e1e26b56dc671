//! Random placement of food.

use vstd::prelude::*;

use crate::snake::Cell;

verus! {

/// Whether `cell` lies on a board of `width` x `height` cells.
pub open spec fn on_board(cell: Cell, width: i32, height: i32) -> bool {
    0 <= cell.0 < width && 0 <= cell.1 < height
}

/// Draws a number from `0..bound` with the thread-local generator, by
/// `rand::random_range`.
///
/// Not proved. `random_range` panics on an empty range, which `bound > 0`
/// rules out, and samples a value of the range it is given; which value is
/// left open, so callers are verified for each of them.
#[verifier::external_body]
fn random_below(bound: i32) -> (r: i32)
    requires
        bound > 0,
    ensures
        0 <= r < bound,
{
    rand::random_range(0..bound)
}

/// Picks a cell of the board at random, each coordinate drawn on its own.
/// The cell may be one that the snake occupies.
pub fn random_cell(width: i32, height: i32) -> (cell: Cell)
    requires
        width > 0,
        height > 0,
    ensures
        on_board(cell, width, height),
{
    let x = random_below(width);
    let y = random_below(height);
    (x, y)
}

} // verus!
