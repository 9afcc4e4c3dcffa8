//! Directions of cursor movement.
use vstd::prelude::*;

verus! {

/// The direction of a cursor movement.
#[derive(Debug, Clone, Copy, PartialEq, Eq, Structural)]
pub enum Direction {
    /// One line up.
    Up,
    /// One line down.
    Down,
    /// One character left.
    Left,
    /// One character right.
    Right,
}

} // verus!
