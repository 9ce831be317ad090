//! A piece: a kind, a rotation count and the place of its bounding box.

use vstd::prelude::*;
use crate::tetromino::{cells_spec, lemma_cells_row_major, reads_before, Tetromino};
use crate::vec2::Vec2;

verus! {

/// A piece on the grid. `pos` is the anchor: the grid square under the
/// top-left corner of the bounding box. A piece is a plain value; a copy
/// shares nothing with the piece it was made from.
#[derive(Debug, Clone, Copy, PartialEq, Eq, Structural)]
pub struct Piece {
    pub tetromino: Tetromino,
    pub rot: i32,
    pub pos: Vec2,
}

/// A piece on the unbounded integer plane: what a `Piece` stands for, and
/// also what it would be after a move that leaves the range of its fields.
pub struct Placement {
    pub kind: Tetromino,
    pub rot: int,
    pub x: int,
    pub y: int,
}

impl Placement {
    /// The four offsets inside the bounding box.
    pub open spec fn offsets(self) -> Seq<Vec2> {
        cells_spec(self.kind, self.rot)
    }

    /// The `i`-th occupied square, as `(column, row)`.
    pub open spec fn square(self, i: int) -> (int, int) {
        (self.x + self.offsets()[i].x, self.y + self.offsets()[i].y)
    }

    /// One of the first `n` occupied squares is `(x, y)`.
    pub open spec fn covers_first(self, n: int, x: int, y: int) -> bool {
        ||| (0 < n && self.square(0) == (x, y))
        ||| (1 < n && self.square(1) == (x, y))
        ||| (2 < n && self.square(2) == (x, y))
        ||| (3 < n && self.square(3) == (x, y))
    }

    /// The piece occupies the square in column `x` of row `y`.
    pub open spec fn covers(self, x: int, y: int) -> bool {
        self.covers_first(4, x, y)
    }

    /// The same piece with its anchor moved by `(dx, dy)`.
    pub open spec fn shifted(self, dx: int, dy: int) -> Placement {
        Placement { kind: self.kind, rot: self.rot, x: self.x + dx, y: self.y + dy }
    }

    /// The same piece after `delta` quarter turns: the rotation count becomes
    /// `(rot + delta) mod 4`, a number in `0..4`.
    pub open spec fn turned(self, delta: int) -> Placement {
        Placement { kind: self.kind, rot: (self.rot + delta) % 4, x: self.x, y: self.y }
    }

    /// The topmost row that the piece occupies.
    pub open spec fn top(self) -> int {
        self.square(0).1
    }

    /// The lowest row that the piece occupies.
    pub open spec fn bottom(self) -> int {
        self.square(3).1
    }

    /// No occupied square lies above `top()` or below `bottom()`.
    pub proof fn lemma_rows_between_top_and_bottom(self, i: int)
        requires
            0 <= i < 4,
        ensures
            self.top() <= self.square(i).1 <= self.bottom(),
    {
        lemma_cells_row_major(self.kind, self.rot);
        let s = self.offsets();
        if 0 < i {
            assert(reads_before(s[0], s[i]));
        }
        if i < 3 {
            assert(reads_before(s[i], s[3]));
        }
    }
}

impl View for Piece {
    type V = Placement;

    open spec fn view(&self) -> Placement {
        Placement {
            kind: self.tetromino,
            rot: self.rot as int,
            x: self.pos.x as int,
            y: self.pos.y as int,
        }
    }
}

impl Piece {
    /// A piece of the given kind in its first orientation, anchored at the
    /// origin; the caller sets `pos`.
    pub fn new(tetromino: Tetromino) -> (piece: Self)
        ensures
            piece == (Piece { tetromino, rot: 0, pos: Vec2::spec_xy(0, 0) }),
    {
        Self { tetromino, rot: 0, pos: Vec2::zero() }
    }

    /// Turns the piece by `delta` quarter turns, without looking at the grid:
    /// whether the turned piece fits is for the caller to check.
    pub fn rotate(&mut self, delta: i32) -> (turned: &Self)
        ensures
            final(self)@ == old(self)@.turned(delta as int),
            *turned == *final(self),
    {
        let sum: i64 = self.rot as i64 + delta as i64;
        let t: i64 = sum % 4;
        let r: i64 = if t < 0 {
            t + 4
        } else {
            t
        };
        self.rot = r as i32;
        self
    }

    /// The four offsets of the piece inside its bounding box; adding the
    /// anchor to each gives the grid squares that the piece occupies.
    pub fn cells(&self) -> (v: Vec<Vec2>)
        ensures
            v@ == self@.offsets(),
    {
        self.tetromino.cells(self.rot)
    }
}

} // verus!
