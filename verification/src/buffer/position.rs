//! Positions in the buffer.
use vstd::prelude::*;

verus! {

/// A position in the buffer: 0-indexed line and character column.
#[derive(Debug, Clone, Copy, PartialEq, Eq, Structural)]
pub struct Position {
    /// Line number (0-indexed).
    pub line: usize,
    /// Column number (0-indexed, in characters).
    pub column: usize,
}

/// Whether `a` comes before `b` or equals it (by line, then column).
pub open spec fn pos_le(a: Position, b: Position) -> bool {
    a.line < b.line || (a.line == b.line && a.column <= b.column)
}

/// Whether `a` comes strictly before `b`.
pub open spec fn pos_lt(a: Position, b: Position) -> bool {
    a.line < b.line || (a.line == b.line && a.column < b.column)
}

impl Position {
    /// The position at the given line and column.
    pub fn new(line: usize, column: usize) -> (r: Self)
        ensures
            r.line == line,
            r.column == column,
    {
        Position { line, column }
    }

    /// The position (0, 0).
    pub fn origin() -> (r: Self)
        ensures
            r.line == 0,
            r.column == 0,
    {
        Position { line: 0, column: 0 }
    }

    /// Whether this position comes before `other` or equals it.
    pub fn is_at_or_before(&self, other: &Position) -> (r: bool)
        ensures
            r == pos_le(*self, *other),
    {
        self.line < other.line || (self.line == other.line && self.column <= other.column)
    }

    /// Whether this position comes strictly before `other`.
    pub fn is_before(&self, other: &Position) -> (r: bool)
        ensures
            r == pos_lt(*self, *other),
    {
        self.line < other.line || (self.line == other.line && self.column < other.column)
    }
}

} // verus!
