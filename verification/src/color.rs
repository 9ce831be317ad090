//! Terminal colours, as plain values.

use vstd::prelude::*;

verus! {

/// A terminal colour: one of the named colours, or a code of the 256-colour
/// palette.
#[derive(Debug, Clone, Copy, PartialEq, Eq, Structural)]
pub enum Color {
    Black,
    White,
    Grey,
    DarkGrey,
    LightGrey,
    Red,
    Green,
    Blue,
    Cyan,
    Yellow,
    Magenta,
    Xterm(u8),
}

} // verus!
