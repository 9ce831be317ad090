//! The seven piece kinds and their geometry.
//!
//! Each kind has four orientations. An orientation is a list of four offsets
//! inside the kind's bounding box, whose origin is the top-left corner: the
//! box is 4x4 for `I` and 3x3 for the others (the square sits in the two
//! right columns of the top two rows of its box and looks the same in every
//! orientation). The offsets are listed row by row, top row first, and within
//! a row from left to right.

use vstd::prelude::*;
use rand::Rng;
use crate::color::Color;
use crate::vec2::Vec2;

verus! {

/// A piece kind.
#[derive(Debug, Clone, Copy, PartialEq, Eq, Structural)]
pub enum Tetromino {
    // X X X X
    I,
    // X
    // X X X
    J,
    //     X
    // X X X
    L,
    // X X
    // X X
    O,
    //   X X
    // X X
    S,
    //   X
    // X X X
    T,
    // X X
    //   X X
    Z,
}

/// The number of piece kinds.
pub const KINDS: i32 = 7;

/// The sequence of the four offsets `(x0, y0)`, ..., `(x3, y3)`.
pub open spec fn four(
    x0: i32,
    y0: i32,
    x1: i32,
    y1: i32,
    x2: i32,
    y2: i32,
    x3: i32,
    y3: i32,
) -> Seq<Vec2> {
    seq![Vec2::spec_xy(x0, y0), Vec2::spec_xy(x1, y1), Vec2::spec_xy(x2, y2), Vec2::spec_xy(x3, y3)]
}

/// The orientation that a rotation count selects: the count modulo 4, in
/// `0..4` also for a negative count.
pub open spec fn orientation(rot: int) -> int {
    rot % 4
}

/// The offsets that `kind` occupies in orientation `orientation(rot)`.
pub open spec fn cells_spec(kind: Tetromino, rot: int) -> Seq<Vec2> {
    let r = orientation(rot);
    match kind {
        Tetromino::O => four(1, 0, 2, 0, 1, 1, 2, 1),
        Tetromino::I => if r == 0 {
            four(0, 1, 1, 1, 2, 1, 3, 1)
        } else if r == 1 {
            four(2, 0, 2, 1, 2, 2, 2, 3)
        } else if r == 2 {
            four(0, 2, 1, 2, 2, 2, 3, 2)
        } else {
            four(1, 0, 1, 1, 1, 2, 1, 3)
        },
        Tetromino::S => if r == 0 {
            four(1, 0, 2, 0, 0, 1, 1, 1)
        } else if r == 1 {
            four(1, 0, 1, 1, 2, 1, 2, 2)
        } else if r == 2 {
            four(1, 1, 2, 1, 0, 2, 1, 2)
        } else {
            four(0, 0, 0, 1, 1, 1, 1, 2)
        },
        Tetromino::Z => if r == 0 {
            four(0, 0, 1, 0, 1, 1, 2, 1)
        } else if r == 1 {
            four(2, 0, 1, 1, 2, 1, 1, 2)
        } else if r == 2 {
            four(0, 1, 1, 1, 1, 2, 2, 2)
        } else {
            four(1, 0, 0, 1, 1, 1, 0, 2)
        },
        Tetromino::L => if r == 0 {
            four(2, 0, 0, 1, 1, 1, 2, 1)
        } else if r == 1 {
            four(1, 0, 1, 1, 1, 2, 2, 2)
        } else if r == 2 {
            four(0, 1, 1, 1, 2, 1, 0, 2)
        } else {
            four(0, 0, 1, 0, 1, 1, 1, 2)
        },
        Tetromino::J => if r == 0 {
            four(0, 0, 0, 1, 1, 1, 2, 1)
        } else if r == 1 {
            four(1, 0, 2, 0, 1, 1, 1, 2)
        } else if r == 2 {
            four(0, 1, 1, 1, 2, 1, 2, 2)
        } else {
            four(1, 0, 1, 1, 0, 2, 1, 2)
        },
        Tetromino::T => if r == 0 {
            four(1, 0, 0, 1, 1, 1, 2, 1)
        } else if r == 1 {
            four(1, 0, 1, 1, 2, 1, 1, 2)
        } else if r == 2 {
            four(0, 1, 1, 1, 2, 1, 1, 2)
        } else {
            four(1, 0, 0, 1, 1, 1, 1, 2)
        },
    }
}

/// The side of the bounding box of `kind`.
pub open spec fn box_side(kind: Tetromino) -> int {
    if kind == Tetromino::I {
        4
    } else {
        3
    }
}

/// `a` comes before `b` when the box is read row by row from the top, each
/// row from left to right.
pub open spec fn reads_before(a: Vec2, b: Vec2) -> bool {
    a.y < b.y || (a.y == b.y && a.x < b.x)
}

/// `c` is one of the four offsets of `s`.
pub open spec fn has_offset(s: Seq<Vec2>, c: Vec2) -> bool {
    s[0] == c || s[1] == c || s[2] == c || s[3] == c
}

/// The offset that `c` moves to when the bounding box of `kind` makes a
/// quarter turn clockwise.
pub open spec fn quarter_turn(kind: Tetromino, c: Vec2) -> (int, int) {
    (box_side(kind) - 1 - c.y, c.x as int)
}

/// The kind that stands at place `i` of the list I, J, L, O, S, T, Z, counted
/// from 0; the last one for every other `i`.
pub open spec fn kind_at(i: int) -> Tetromino {
    if i == 0 {
        Tetromino::I
    } else if i == 1 {
        Tetromino::J
    } else if i == 2 {
        Tetromino::L
    } else if i == 3 {
        Tetromino::O
    } else if i == 4 {
        Tetromino::S
    } else if i == 5 {
        Tetromino::T
    } else {
        Tetromino::Z
    }
}

/// The colour in which `kind` is drawn.
pub open spec fn color_spec(kind: Tetromino) -> Color {
    match kind {
        Tetromino::O => Color::Yellow,
        Tetromino::I => Color::Cyan,
        Tetromino::S => Color::Green,
        Tetromino::Z => Color::Red,
        Tetromino::L => Color::Xterm(208),
        Tetromino::J => Color::Blue,
        Tetromino::T => Color::Magenta,
    }
}

/// Draws one integer from `0..n` with `rand::Rng::gen_range` on the generator
/// that `rand::thread_rng` hands out.
///
/// The contract claims only what `gen_range` documents for a half-open range:
/// the value lies in it. Which value comes is left open, and two calls may
/// differ. `gen_range` panics on an empty range, which `n > 0` rules out. The
/// generator is seeded from the operating system on first use and the call
/// does not return if that fails.
#[verifier::external_body]
fn random_index(n: i32) -> (i: i32)
    requires
        0 < n,
    ensures
        0 <= i < n,
{
    rand::thread_rng().gen_range(0..n)
}

/// The vector of the four offsets `(x0, y0)`, ..., `(x3, y3)`.
fn quad(x0: i32, y0: i32, x1: i32, y1: i32, x2: i32, y2: i32, x3: i32, y3: i32) -> (v: Vec<Vec2>)
    ensures
        v@ == four(x0, y0, x1, y1, x2, y2, x3, y3),
{
    vec![Vec2::xy(x0, y0), Vec2::xy(x1, y1), Vec2::xy(x2, y2), Vec2::xy(x3, y3)]
}

impl Tetromino {
    /// The colour in which this kind is drawn.
    pub fn color(&self) -> (c: Color)
        ensures
            c == color_spec(*self),
    {
        match self {
            Tetromino::O => Color::Yellow,
            Tetromino::I => Color::Cyan,
            Tetromino::S => Color::Green,
            Tetromino::Z => Color::Red,
            Tetromino::L => Color::Xterm(208),
            Tetromino::J => Color::Blue,
            Tetromino::T => Color::Magenta,
        }
    }

    /// The kind at place `i` of the list I, J, L, O, S, T, Z, counted from 0,
    /// and `Z` for every other `i`.
    pub fn from_index(i: i32) -> (kind: Tetromino)
        ensures
            kind == kind_at(i as int),
    {
        match i {
            0 => Tetromino::I,
            1 => Tetromino::J,
            2 => Tetromino::L,
            3 => Tetromino::O,
            4 => Tetromino::S,
            5 => Tetromino::T,
            _ => Tetromino::Z,
        }
    }

    /// A kind drawn at random, each draw independent of the others.
    pub fn random() -> (kind: Tetromino)
        ensures
            exists|i: int| 0 <= i < KINDS && kind == #[trigger] kind_at(i),
    {
        let i: i32 = random_index(KINDS);
        Tetromino::from_index(i)
    }

    /// The four offsets of this kind in the orientation that `rot` selects.
    pub fn cells(&self, rot: i32) -> (v: Vec<Vec2>)
        ensures
            v@ == cells_spec(*self, rot as int),
    {
        let t: i32 = rot % 4;
        let r: i32 = if t < 0 {
            t + 4
        } else {
            t
        };
        assert(r == orientation(rot as int));
        match self {
            Tetromino::O => quad(1, 0, 2, 0, 1, 1, 2, 1),
            Tetromino::I => match r {
                0 => quad(0, 1, 1, 1, 2, 1, 3, 1),
                1 => quad(2, 0, 2, 1, 2, 2, 2, 3),
                2 => quad(0, 2, 1, 2, 2, 2, 3, 2),
                _ => quad(1, 0, 1, 1, 1, 2, 1, 3),
            },
            Tetromino::S => match r {
                0 => quad(1, 0, 2, 0, 0, 1, 1, 1),
                1 => quad(1, 0, 1, 1, 2, 1, 2, 2),
                2 => quad(1, 1, 2, 1, 0, 2, 1, 2),
                _ => quad(0, 0, 0, 1, 1, 1, 1, 2),
            },
            Tetromino::Z => match r {
                0 => quad(0, 0, 1, 0, 1, 1, 2, 1),
                1 => quad(2, 0, 1, 1, 2, 1, 1, 2),
                2 => quad(0, 1, 1, 1, 1, 2, 2, 2),
                _ => quad(1, 0, 0, 1, 1, 1, 0, 2),
            },
            Tetromino::L => match r {
                0 => quad(2, 0, 0, 1, 1, 1, 2, 1),
                1 => quad(1, 0, 1, 1, 1, 2, 2, 2),
                2 => quad(0, 1, 1, 1, 2, 1, 0, 2),
                _ => quad(0, 0, 1, 0, 1, 1, 1, 2),
            },
            Tetromino::J => match r {
                0 => quad(0, 0, 0, 1, 1, 1, 2, 1),
                1 => quad(1, 0, 2, 0, 1, 1, 1, 2),
                2 => quad(0, 1, 1, 1, 2, 1, 2, 2),
                _ => quad(1, 0, 1, 1, 0, 2, 1, 2),
            },
            Tetromino::T => match r {
                0 => quad(1, 0, 0, 1, 1, 1, 2, 1),
                1 => quad(1, 0, 1, 1, 2, 1, 1, 2),
                2 => quad(0, 1, 1, 1, 2, 1, 1, 2),
                _ => quad(1, 0, 0, 1, 1, 1, 1, 2),
            },
        }
    }
}

/// Every orientation of every kind has exactly four offsets, and no two of
/// them are equal.
pub proof fn lemma_cells_distinct(kind: Tetromino, rot: int)
    ensures
        cells_spec(kind, rot).len() == 4,
        forall|i: int, j: int|
            0 <= i < j < 4 ==> cells_spec(kind, rot)[i] != cells_spec(kind, rot)[j],
{
}

/// The square has a single shape: every rotation count gives the same
/// offsets.
pub proof fn lemma_square_has_one_orientation(rot_a: int, rot_b: int)
    ensures
        cells_spec(Tetromino::O, rot_a) == cells_spec(Tetromino::O, rot_b),
{
}

/// Rotation counts that differ by a multiple of four select the same offsets.
pub proof fn lemma_cells_periodic(kind: Tetromino, rot: int, turns: int)
    ensures
        cells_spec(kind, rot + 4 * turns) == cells_spec(kind, rot),
{
    assert((rot + 4 * turns) % 4 == rot % 4) by (nonlinear_arith);
}

/// Every offset lies inside the bounding box of its kind.
pub proof fn lemma_cells_in_box(kind: Tetromino, rot: int)
    ensures
        forall|i: int|
            0 <= i < 4 ==> 0 <= (#[trigger] cells_spec(kind, rot)[i]).x < box_side(kind) && 0
                <= cells_spec(kind, rot)[i].y < box_side(kind),
{
}

/// The offsets are listed row by row from the top, and from left to right
/// within a row: the first offset lies in the topmost occupied row and the
/// last one in the lowest.
pub proof fn lemma_cells_row_major(kind: Tetromino, rot: int)
    ensures
        forall|i: int, j: int|
            0 <= i < j < 4 ==> reads_before(
                #[trigger] cells_spec(kind, rot)[i],
                #[trigger] cells_spec(kind, rot)[j],
            ),
{
}

/// Apart from the square, the next orientation of a kind is the present one
/// after a quarter turn clockwise of the bounding box: each offset of the
/// present orientation, turned, is an offset of the next.
pub proof fn lemma_next_orientation_is_quarter_turn(kind: Tetromino, rot: int, c: Vec2)
    requires
        kind != Tetromino::O,
        has_offset(cells_spec(kind, rot), c),
    ensures
        exists|d: Vec2|
            #[trigger] has_offset(cells_spec(kind, rot + 1), d) && (d.x as int, d.y as int)
                == quarter_turn(kind, c),
{
    let (x, y) = quarter_turn(kind, c);
    lemma_cells_in_box(kind, rot);
    let d = Vec2 { x: x as i32, y: y as i32 };
    assert((rot + 1) % 4 == (rot % 4 + 1) % 4) by (nonlinear_arith);
    assert(has_offset(cells_spec(kind, rot + 1), d));
}

} // verus!
