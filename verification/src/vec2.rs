//! Integer points and offsets on the board and on the screen.

use vstd::prelude::*;

verus! {

/// A two-dimensional integer vector: `x` grows to the right, `y` grows
/// downwards.
#[derive(Debug, Clone, Copy, PartialEq, Eq, Structural)]
pub struct Vec2 {
    pub x: i32,
    pub y: i32,
}

impl Vec2 {
    /// The vector `(x, y)`, usable in contracts.
    pub open spec fn spec_xy(x: i32, y: i32) -> Vec2 {
        Vec2 { x, y }
    }

    /// The vector `(x, y)`.
    #[verifier::when_used_as_spec(spec_xy)]
    pub fn xy(x: i32, y: i32) -> (v: Vec2)
        ensures
            v == Vec2::spec_xy(x, y),
    {
        Vec2 { x, y }
    }

    /// The vector `(0, 0)`.
    pub fn zero() -> (v: Vec2)
        ensures
            v == Vec2::spec_xy(0, 0),
    {
        Vec2 { x: 0, y: 0 }
    }
}

} // verus!
