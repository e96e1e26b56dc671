//! The snake: an ordered body of board cells and a direction of travel.
//!
//! The body is stored tail first, so the head is the last element. The board
//! is a torus: a step past one edge re-enters at the opposite edge.

use vstd::prelude::*;

verus! {

/// A board cell, as (column, row).
pub type Cell = (i32, i32);

/// The snake's body, tail first, and its direction of travel.
pub struct Snake {
    pub body: Vec<Cell>,
    pub direction: Cell,
}

/// Mathematical model of a [`Snake`].
pub ghost struct SnakeView {
    pub body: Seq<Cell>,
    pub direction: Cell,
}

impl View for Snake {
    type V = SnakeView;

    open spec fn view(&self) -> SnakeView {
        SnakeView { body: self.body@, direction: self.direction }
    }
}

/// The coordinate reached from `pos` by `delta` on an axis of `size` cells
/// that wraps around: the non-negative remainder of `pos + delta` by `size`.
pub open spec fn wrap(pos: int, delta: int, size: int) -> int {
    (pos + delta) % size
}

impl SnakeView {
    /// The snake every game starts with: three cells down the first column,
    /// heading down.
    pub open spec fn initial() -> SnakeView {
        SnakeView { body: seq![(0i32, 0i32), (0i32, 1i32), (0i32, 2i32)], direction: (0, 1) }
    }

    /// The most recently added cell.
    pub open spec fn head(self) -> Cell {
        self.body.last()
    }

    /// The least recently added cell.
    pub open spec fn tail(self) -> Cell {
        self.body.first()
    }

    /// The cell the head enters on the next step of a `width` x `height` torus.
    pub open spec fn next_head(self, width: i32, height: i32) -> Cell {
        (
            wrap(self.head().0 as int, self.direction.0 as int, width as int) as i32,
            wrap(self.head().1 as int, self.direction.1 as int, height as int) as i32,
        )
    }

    /// Whether the next step runs into the body. The whole present body
    /// counts, the tail cell included, although a step would vacate it.
    pub open spec fn blocked(self, width: i32, height: i32) -> bool {
        self.body.contains(self.next_head(width, height))
    }

    /// The snake after one step: unchanged when blocked, otherwise with the
    /// next head appended and the old tail dropped.
    pub open spec fn move_forward(self, width: i32, height: i32) -> SnakeView {
        if self.blocked(width, height) {
            self
        } else {
            SnakeView {
                body: self.body.push(self.next_head(width, height)).remove(0),
                direction: self.direction,
            }
        }
    }

    /// Whether `new_dir` is the exact opposite of the current direction.
    pub open spec fn reverses(self, new_dir: Cell) -> bool {
        self.direction.0 + new_dir.0 == 0 && self.direction.1 + new_dir.1 == 0
    }

    /// The snake after a request to head in `new_dir`: a reversal is ignored,
    /// anything else is taken as it is.
    pub open spec fn change_direction(self, new_dir: Cell) -> SnakeView {
        if self.reverses(new_dir) {
            self
        } else {
            SnakeView { body: self.body, direction: new_dir }
        }
    }

    /// The snake with its tail cell duplicated at the front of the body.
    pub open spec fn grow(self) -> SnakeView {
        SnakeView { body: self.body.insert(0, self.tail()), direction: self.direction }
    }
}

/// Computes [`wrap`] without overflow for any two `i32` operands.
fn wrap_coord(pos: i32, delta: i32, size: i32) -> (r: i32)
    requires
        size > 0,
    ensures
        r == wrap(pos as int, delta as int, size as int),
        0 <= r < size,
{
    let sum: i64 = pos as i64 + delta as i64;
    let rem: i64 = sum.checked_rem_euclid(size as i64).unwrap();
    rem as i32
}

impl Snake {
    /// Creates the initial snake.
    pub fn new() -> (snake: Snake)
        ensures
            snake@ == SnakeView::initial(),
    {
        let mut body: Vec<Cell> = Vec::new();
        body.push((0, 0));
        body.push((0, 1));
        body.push((0, 2));
        assert(body@ =~= SnakeView::initial().body);
        Snake { body, direction: (0, 1) }
    }

    /// The head: the cell added last.
    pub fn head(&self) -> (cell: Cell)
        requires
            self@.body.len() > 0,
        ensures
            cell == self@.head(),
    {
        self.body[self.body.len() - 1]
    }

    /// Tells whether `cell` is part of the body.
    pub fn occupies(&self, cell: Cell) -> (found: bool)
        ensures
            found == self@.body.contains(cell),
    {
        let mut i: usize = 0;
        while i < self.body.len()
            invariant
                i <= self.body.len(),
                forall|j: int| 0 <= j < i ==> self.body@[j] != cell,
            decreases self.body.len() - i,
        {
            let c = self.body[i];
            if c.0 == cell.0 && c.1 == cell.1 {
                return true;
            }
            i += 1;
        }
        false
    }

    /// Moves one cell in the current direction on a `width` x `height` torus.
    ///
    /// Returns `false`, leaving the snake as it was, when the cell ahead is
    /// part of the body.
    pub fn move_forward(&mut self, width: i32, height: i32) -> (moved: bool)
        requires
            old(self)@.body.len() > 0,
            width > 0,
            height > 0,
        ensures
            moved == !old(self)@.blocked(width, height),
            final(self)@ == old(self)@.move_forward(width, height),
            moved ==> final(self)@.head() == old(self)@.next_head(width, height),
            moved ==> 0 <= final(self)@.head().0 < width && 0 <= final(self)@.head().1 < height,
            final(self)@.body.len() == old(self)@.body.len(),
    {
        let head = self.head();
        let new_head = (
            wrap_coord(head.0, self.direction.0, width),
            wrap_coord(head.1, self.direction.1, height),
        );
        if self.occupies(new_head) {
            return false;
        }
        self.body.push(new_head);
        self.body.remove(0);
        true
    }

    /// Asks the snake to head in `new_dir`. A request for the exact opposite
    /// of the current direction is ignored.
    pub fn change_direction(&mut self, new_dir: Cell)
        ensures
            final(self)@ == old(self)@.change_direction(new_dir),
            old(self)@.reverses(new_dir) ==> final(self).direction == old(self).direction,
            !old(self)@.reverses(new_dir) ==> final(self).direction == new_dir,
            final(self)@.body == old(self)@.body,
    {
        let dx: i64 = self.direction.0 as i64 + new_dir.0 as i64;
        let dy: i64 = self.direction.1 as i64 + new_dir.1 as i64;
        if dx != 0 || dy != 0 {
            self.direction = new_dir;
        }
    }

    /// Lengthens the body by one cell, a copy of the tail placed in front of
    /// it. The next successful step drops that copy and keeps the length.
    pub fn grow(&mut self)
        requires
            old(self)@.body.len() > 0,
        ensures
            final(self)@ == old(self)@.grow(),
            final(self)@.body.len() == old(self)@.body.len() + 1,
    {
        let tail = self.body[0];
        self.body.insert(0, tail);
    }
}

} // verus!
