//! Text selections: an anchor that stays and a cursor that moves.
use vstd::prelude::*;
use super::position::{Position, pos_le, pos_lt};

verus! {

/// A selection between a fixed anchor and a movable cursor; it is collapsed
/// (selects nothing) when both are equal.
#[derive(Debug, Clone, Copy, PartialEq, Eq, Structural)]
pub struct Selection {
    anchor: Position,
    cursor: Position,
}

/// The ordered bounds `(start, end)` of a selection with the given anchor
/// and cursor.
pub open spec fn ordered(anchor: Position, cursor: Position) -> (Position, Position) {
    if pos_le(anchor, cursor) {
        (anchor, cursor)
    } else {
        (cursor, anchor)
    }
}

impl View for Selection {
    type V = (Position, Position);

    /// The anchor and the cursor.
    closed spec fn view(&self) -> (Position, Position) {
        (self.anchor, self.cursor)
    }
}

impl Selection {
    /// A collapsed selection at `pos`.
    pub fn new(pos: Position) -> (r: Self)
        ensures
            r@ == (pos, pos),
    {
        Selection { anchor: pos, cursor: pos }
    }

    /// A selection with the given anchor and cursor, in either direction.
    pub fn with_anchor_and_cursor(anchor: Position, cursor: Position) -> (r: Self)
        ensures
            r@ == (anchor, cursor),
    {
        Selection { anchor, cursor }
    }

    /// The anchor.
    pub fn anchor(&self) -> (r: Position)
        ensures
            r == self@.0,
    {
        self.anchor
    }

    /// The cursor.
    pub fn cursor(&self) -> (r: Position)
        ensures
            r == self@.1,
    {
        self.cursor
    }

    /// Whether any text is selected (anchor and cursor differ).
    pub fn has_selection(&self) -> (r: bool)
        ensures
            r == (self@.0 != self@.1),
    {
        !(self.anchor.line == self.cursor.line && self.anchor.column == self.cursor.column)
    }

    /// The bounds ordered as `(start, end)` with `start <= end`.
    pub fn range(&self) -> (r: (Position, Position))
        ensures
            r == ordered(self@.0, self@.1),
    {
        if self.anchor.is_at_or_before(&self.cursor) {
            (self.anchor, self.cursor)
        } else {
            (self.cursor, self.anchor)
        }
    }

    /// Whether `pos` lies in the selection: from the start, inclusive, to
    /// the end, exclusive.
    pub fn contains(&self, pos: Position) -> (r: bool)
        ensures
            r == (pos_le(ordered(self@.0, self@.1).0, pos) && pos_lt(
                pos,
                ordered(self@.0, self@.1).1,
            )),
    {
        let (start, end) = self.range();
        start.is_at_or_before(&pos) && pos.is_before(&end)
    }

    /// Moves the cursor to `pos`, keeping the anchor.
    pub fn extend_to(self, pos: Position) -> (r: Self)
        ensures
            r@ == (self@.0, pos),
    {
        Selection { anchor: self.anchor, cursor: pos }
    }

    /// Collapses the selection at its cursor.
    pub fn clear(self) -> (r: Self)
        ensures
            r@ == (self@.1, self@.1),
    {
        Selection { anchor: self.cursor, cursor: self.cursor }
    }
}

/// A selection's ordered bounds are its anchor and cursor, start first.
pub proof fn lemma_range_is_ordered(anchor: Position, cursor: Position)
    ensures
        pos_le(ordered(anchor, cursor).0, ordered(anchor, cursor).1),
        (ordered(anchor, cursor).0 == anchor && ordered(anchor, cursor).1 == cursor) || (
        ordered(anchor, cursor).0 == cursor && ordered(anchor, cursor).1 == anchor),
        ordered(anchor, cursor) == ordered(cursor, anchor),
{
}

/// A collapsed selection contains no position, and a selection that selects
/// text contains its start.
pub proof fn lemma_contains_start_iff_selected(anchor: Position, cursor: Position, pos: Position)
    ensures
        anchor == cursor ==> !(pos_le(ordered(anchor, cursor).0, pos) && pos_lt(
            pos,
            ordered(anchor, cursor).1,
        )),
        anchor != cursor ==> pos_le(ordered(anchor, cursor).0, ordered(anchor, cursor).0)
            && pos_lt(ordered(anchor, cursor).0, ordered(anchor, cursor).1),
{
}

} // verus!
