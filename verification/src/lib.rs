//! A falling-block puzzle engine: a bounded grid, four-cell pieces that fall,
//! rotate, collide, lock and clear completed rows, with scoring and levels.
//!
//! Every executable function carries a contract over a mathematical model of
//! the state it touches, and the laws that relate the operations are stated
//! as public proof functions next to them.

pub mod vec2;
pub mod color;
pub mod tetromino;
pub mod cell;
pub mod piece;
pub mod grid;
pub mod key;
pub mod gamestate;
