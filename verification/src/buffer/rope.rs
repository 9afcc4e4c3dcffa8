//! The rope of the `ropey` crate, which stores the buffer's text.
//!
//! The characters a rope holds are named by [`rope_text`]; each operation the
//! buffer uses is a wrapper whose contract says what the operation does to
//! those characters, with lines as `super::lines` defines them (the line
//! breaks ropey recognizes with its default features).
use vstd::prelude::*;
use ropey::Rope;
use super::lines::{line_start, line_text, line_total};

verus! {

/// The rope type of `ropey`, used as an opaque value.
#[verifier::external_type_specification]
#[verifier::external_body]
pub struct ExRope(Rope);

/// The characters held by a rope.
pub uninterp spec fn rope_text(r: Rope) -> Seq<char>;

/// Calls `Rope::new`: an empty rope.
#[verifier::external_body]
pub(crate) fn rope_new() -> (r: Rope)
    ensures
        rope_text(r) == Seq::<char>::empty(),
{
    Rope::new()
}

/// Calls `Rope::from_str`: a rope holding the characters of `s`.
#[verifier::external_body]
pub(crate) fn rope_from_str(s: &str) -> (r: Rope)
    ensures
        rope_text(r) == s@,
{
    Rope::from_str(s)
}

/// Calls `Rope::len_chars`: the number of characters.
#[verifier::external_body]
pub(crate) fn rope_len_chars(r: &Rope) -> (n: usize)
    ensures
        n == rope_text(*r).len(),
{
    r.len_chars()
}

/// Calls `Rope::len_lines`: the number of lines (line breaks plus one).
#[verifier::external_body]
pub(crate) fn rope_len_lines(r: &Rope) -> (n: usize)
    ensures
        n == line_total(rope_text(*r)),
{
    r.len_lines()
}

/// Calls `Rope::line_to_char`: the character index where line `l` starts;
/// one past the end for `l == len_lines()`.  Larger indices panic.
#[verifier::external_body]
pub(crate) fn rope_line_to_char(r: &Rope, l: usize) -> (n: usize)
    requires
        l <= line_total(rope_text(*r)),
    ensures
        n == line_start(rope_text(*r), l as int),
{
    r.line_to_char(l)
}

/// Calls `Rope::line` and converts the slice to a `String`: the characters
/// of line `l` with its line break.  An index past the last line panics.
#[verifier::external_body]
pub(crate) fn rope_line_string(r: &Rope, l: usize) -> (s: String)
    requires
        l < line_total(rope_text(*r)),
    ensures
        s@ == line_text(rope_text(*r), l as int),
{
    r.line(l).to_string()
}

/// Calls `Rope::insert_char`: `ch` is inserted at character index `idx`.
/// An index past the end panics.
#[verifier::external_body]
pub(crate) fn rope_insert_char(r: &mut Rope, idx: usize, ch: char)
    requires
        idx <= rope_text(*old(r)).len(),
    ensures
        rope_text(*final(r)) == rope_text(*old(r)).insert(idx as int, ch),
{
    r.insert_char(idx, ch)
}

/// Calls `Rope::remove` on the range `start..end`: those characters are
/// removed.  A reversed range or an end past the text panics.
#[verifier::external_body]
pub(crate) fn rope_remove(r: &mut Rope, start: usize, end: usize)
    requires
        start <= end <= rope_text(*old(r)).len(),
    ensures
        rope_text(*final(r)) == rope_text(*old(r)).subrange(0, start as int) + rope_text(
            *old(r),
        ).subrange(end as int, rope_text(*old(r)).len() as int),
{
    r.remove(start..end)
}

/// Calls `Rope::clone`: a rope holding the same characters.
#[verifier::external_body]
pub(crate) fn rope_clone(r: &Rope) -> (c: Rope)
    ensures
        rope_text(c) == rope_text(*r),
{
    r.clone()
}

/// Converts the whole rope to a `String` (its `Display`): its characters.
#[verifier::external_body]
pub(crate) fn rope_to_string(r: &Rope) -> (s: String)
    ensures
        s@ == rope_text(*r),
{
    r.to_string()
}

/// Calls `Rope::slice` on `start..end` and converts the slice to a
/// `String`: the characters in that range.  A reversed range or an end past
/// the text panics.
#[verifier::external_body]
pub(crate) fn rope_slice_string(r: &Rope, start: usize, end: usize) -> (s: String)
    requires
        start <= end <= rope_text(*r).len(),
    ensures
        s@ == rope_text(*r).subrange(start as int, end as int),
{
    r.slice(start..end).to_string()
}

} // verus!
