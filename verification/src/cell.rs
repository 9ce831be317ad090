//! What one square of the grid holds.

use vstd::prelude::*;
use crate::tetromino::Tetromino;

verus! {

/// The content of one grid square.
///
/// `Shadow` marks where the falling piece would land; it is a drawing hint
/// and never an obstacle.
#[derive(Debug, Clone, Copy, PartialEq, Eq, Structural)]
pub enum Cell {
    Empty,
    Tetromino(Tetromino),
    Shadow,
}

impl Cell {
    /// A piece may enter a square that is `Empty` or `Shadow`.
    pub open spec fn is_free(self) -> bool {
        self == Cell::Empty || self == Cell::Shadow
    }
}

} // verus!
