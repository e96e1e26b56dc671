//! Screen geometry in whole pixels: pointer positions and rectangles.
//!
//! A pointing device may report a position between two pixels. Rectangles
//! here have whole-pixel edges, and to compare a position with such an edge
//! it is enough to know the pixel at or below the position and whether the
//! position lies strictly past that pixel. A [`Coord`] holds exactly that.

use vstd::prelude::*;

verus! {

/// One coordinate of a pointer position, in pixels.
///
/// It stands for a position `p` with `whole <= p < whole + 1`, where
/// `p == whole` exactly when `fraction` is false.
#[derive(Clone, Copy, Debug, PartialEq, Eq, Structural)]
pub struct Coord {
    pub whole: i64,
    pub fraction: bool,
}

/// A pointer position, in pixels.
#[derive(Clone, Copy, Debug, PartialEq, Eq, Structural)]
pub struct Pointer {
    pub x: Coord,
    pub y: Coord,
}

/// An axis-aligned rectangle, in pixels: its top-left corner and its extent.
#[derive(Clone, Copy, Debug, PartialEq, Eq, Structural)]
pub struct Rect {
    pub x: i64,
    pub y: i64,
    pub width: i64,
    pub height: i64,
}

impl Coord {
    /// Whether the position is at or after the whole pixel `edge`.
    pub open spec fn at_least(self, edge: int) -> bool {
        self.whole >= edge
    }

    /// Whether the position is at or before the whole pixel `edge`.
    pub open spec fn at_most(self, edge: int) -> bool {
        self.whole < edge || (self.whole == edge && !self.fraction)
    }

    /// The position exactly on the whole pixel `whole`.
    pub fn exact(whole: i64) -> (c: Coord)
        ensures
            c == (Coord { whole, fraction: false }),
    {
        Coord { whole, fraction: false }
    }
}

impl Pointer {
    /// The position exactly on the pixel (0, 0).
    pub open spec fn origin() -> Pointer {
        Pointer { x: Coord { whole: 0, fraction: false }, y: Coord { whole: 0, fraction: false } }
    }

    /// The position exactly on the pixel (`x`, `y`).
    pub fn at(x: i64, y: i64) -> (p: Pointer)
        ensures
            p == (Pointer {
                x: Coord { whole: x, fraction: false },
                y: Coord { whole: y, fraction: false },
            }),
    {
        Pointer { x: Coord::exact(x), y: Coord::exact(y) }
    }
}

impl Rect {
    /// Whether `pos` lies inside the rectangle, all four edges included.
    pub open spec fn covers(self, pos: Pointer) -> bool {
        &&& pos.x.at_least(self.x as int)
        &&& pos.x.at_most(self.x + self.width)
        &&& pos.y.at_least(self.y as int)
        &&& pos.y.at_most(self.y + self.height)
    }

    /// Tells whether `pos` lies inside the rectangle, all four edges included.
    pub fn contains(&self, pos: Pointer) -> (inside: bool)
        ensures
            inside == self.covers(pos),
    {
        let right: i128 = self.x as i128 + self.width as i128;
        let bottom: i128 = self.y as i128 + self.height as i128;
        let x: i128 = pos.x.whole as i128;
        let y: i128 = pos.y.whole as i128;
        pos.x.whole >= self.x && (x < right || (x == right && !pos.x.fraction))
            && pos.y.whole >= self.y && (y < bottom || (y == bottom && !pos.y.fraction))
    }
}

} // verus!
