//! The buffer: text in a rope, an optional file path, a dirty flag and an
//! optional selection.
use vstd::prelude::*;
use ropey::Rope;
use super::lines::{
    break_ends_at, line_length, line_start, line_starts, line_starts_upto, line_text, line_total,
    lemma_line_bounds, lemma_line_starts_complete, lemma_line_starts_insert,
    lemma_line_starts_prefix, lemma_line_starts_sound, lemma_line_starts_upto,
    lemma_line_total_positive, lemma_strip_keeps, lemma_strip_newlines, strip_newlines,
};
use super::position::Position;
use super::rope::{
    rope_clone, rope_from_str, rope_insert_char, rope_len_chars, rope_len_lines, rope_line_string,
    rope_line_to_char, rope_new, rope_remove, rope_slice_string, rope_text, rope_to_string,
};
use super::selection::{Selection, ordered};

verus! {

/// The text buffer.
#[derive(Debug)]
pub struct Buffer {
    rope: Rope,
    file_path: Option<String>,
    dirty: bool,
    selection: Option<Selection>,
}

/// What a buffer holds.
pub struct BufferModel {
    /// The characters of the text.
    pub text: Seq<char>,
    /// The associated file path, if any.
    pub file_path: Option<Seq<char>>,
    /// Whether there are unsaved changes.
    pub dirty: bool,
    /// The current selection, if any.
    pub selection: Option<Selection>,
}

impl View for Buffer {
    type V = BufferModel;

    closed spec fn view(&self) -> BufferModel {
        BufferModel {
            text: rope_text(self.rope),
            file_path: match self.file_path {
                Some(p) => Some(p@),
                None => None,
            },
            dirty: self.dirty,
            selection: self.selection,
        }
    }
}

/// Whether `p` addresses a character or a line end of `t`: an existing line,
/// and a column at most the line's length without its LF.
pub open spec fn valid_position(t: Seq<char>, p: Position) -> bool {
    p.line < line_total(t) && p.column <= line_length(t, p.line as int)
}

/// The character index that a (valid) position addresses.
pub open spec fn char_index(t: Seq<char>, p: Position) -> int {
    line_start(t, p.line as int) + p.column
}

/// The nearest valid position: the line capped at the last line, then the
/// column capped at that line's length.
pub open spec fn clamp(t: Seq<char>, p: Position) -> Position {
    let line: usize = if p.line < line_total(t) {
        p.line
    } else {
        (line_total(t) - 1) as usize
    };
    let column: usize = if p.column <= line_length(t, line as int) {
        p.column
    } else {
        line_length(t, line as int) as usize
    };
    Position { line, column }
}

/// Line `line`'s length when `line` exists, 0 otherwise.
pub open spec fn length_or_zero(t: Seq<char>, line: int) -> nat {
    if 0 <= line < line_total(t) {
        line_length(t, line)
    } else {
        0
    }
}

/// The character range that the selection of a buffer covers, once both of
/// its bounds are clamped into the text: `None` when there is no selection,
/// when it is collapsed, or when the clamped range is empty.
pub open spec fn selection_span(m: BufferModel) -> Option<(int, int)> {
    match m.selection {
        Some(sel) => {
            if sel@.0 != sel@.1 {
                let bounds = ordered(sel@.0, sel@.1);
                let i = char_index(m.text, clamp(m.text, bounds.0));
                let j = char_index(m.text, clamp(m.text, bounds.1));
                if i < j {
                    Some((i, j))
                } else {
                    None
                }
            } else {
                None
            }
        },
        None => None,
    }
}

/// A clamped position is valid and addresses a character index within the
/// text.
pub proof fn lemma_clamp_valid(t: Seq<char>, p: Position)
    requires
        t.len() <= usize::MAX,
    ensures
        valid_position(t, clamp(t, p)),
        valid_position(t, p) ==> clamp(t, p) == p,
        0 <= char_index(t, clamp(t, p)) <= t.len(),
{
    lemma_line_total_positive(t);
    let c = clamp(t, p);
    lemma_line_bounds(t, c.line as int);
}

/// A valid position addresses a character index within the text.
pub proof fn lemma_valid_index(t: Seq<char>, p: Position)
    requires
        valid_position(t, p),
    ensures
        0 <= char_index(t, p) <= t.len(),
        char_index(t, p) <= line_start(t, p.line + 1),
{
    lemma_line_bounds(t, p.line as int);
}

/// The selected text is the part of the text that deleting the selection
/// removes: the text is what comes before the selection, the selected text,
/// and what comes after it.  The length bound holds of every buffer's text;
/// `len_chars`, `selected_text` and `delete_selection` state it.
pub proof fn law_selection_splits_text(m: BufferModel)
    requires
        m.text.len() <= usize::MAX,
    ensures
        match selection_span(m) {
            Some((i, j)) => 0 <= i < j <= m.text.len() && m.text == m.text.subrange(0, i)
                + m.text.subrange(i, j) + m.text.subrange(j, m.text.len() as int),
            None => true,
        },
{
    if let Some(sel) = m.selection {
        let bounds = ordered(sel@.0, sel@.1);
        lemma_clamp_valid(m.text, bounds.0);
        lemma_clamp_valid(m.text, bounds.1);
        if let Some((i, j)) = selection_span(m) {
            assert(m.text =~= m.text.subrange(0, i) + m.text.subrange(i, j) + m.text.subrange(
                j,
                m.text.len() as int,
            ));
        }
    }
}

/// Breaks are the same in a text and in the text with a character inserted
/// at `i`, at every index before `i`.
proof fn lemma_breaks_before_insert(t: Seq<char>, i: int, ch: char, k: int)
    requires
        0 < k < i <= t.len(),
    ensures
        break_ends_at(t.insert(i, ch), k) == break_ends_at(t, k),
{
    let t2 = t.insert(i, ch);
    assert(t2[k - 1] == t[k - 1]);
    assert(t2[k] == t[k]);
}

/// Typing a character at a valid position and then deleting the character
/// at that same position gives the text back: the position stays valid and
/// addresses the typed character.  The one exception is a line feed typed
/// at the start of a line that follows a lone CR, as the two then form one
/// CRLF break.
pub proof fn law_insert_then_delete_restores(t: Seq<char>, p: Position, ch: char)
    requires
        valid_position(t, p),
        !(p.column == 0 && char_index(t, p) > 0 && t[char_index(t, p) - 1] == '\r' && ch == '\n'),
    ensures
        valid_position(t.insert(char_index(t, p), ch), p),
        char_index(t.insert(char_index(t, p), ch), p) == char_index(t, p),
        char_index(t, p) < t.insert(char_index(t, p), ch).len(),
        t.insert(char_index(t, p), ch).remove(char_index(t, p)) == t,
{
    let l = p.line as int;
    let c = p.column as int;
    let i = char_index(t, p);
    let start = line_start(t, l);
    let t2 = t.insert(i, ch);
    let n = t.len() as int;
    let n2 = t2.len() as int;
    lemma_line_bounds(t, l);
    lemma_line_starts_upto(t, n);
    lemma_line_starts_upto(t2, n2);
    let st = line_starts(t);
    let st2 = line_starts(t2);
    assert(st[l] == start);
    // The line keeps its start.
    if c > 0 {
        lemma_line_starts_prefix(t, i - 1, n);
        lemma_line_starts_insert(t, i, ch, i - 1);
        lemma_line_starts_prefix(t2, i - 1, n2);
        let pre = line_starts_upto(t, i - 1);
        if l >= pre.len() {
            assert(st[l] > i - 1);
        }
        assert(pre[l] == st[l]);
        assert(st2[l] == start);
    } else if l == 0 {
        assert(st2[0] == 0);
    } else {
        lemma_line_starts_sound(t, n, l);
        assert(break_ends_at(t, start));
        lemma_line_starts_prefix(t, start, n);
        let pre = line_starts_upto(t, start);
        if l >= pre.len() {
            assert(st[l] > start);
        }
        lemma_line_starts_insert(t, i, ch, start - 1);
        assert(break_ends_at(t2, start));
        assert(line_starts_upto(t2, start) == line_starts_upto(t2, start - 1).push(start));
        assert(pre == line_starts_upto(t, start - 1).push(start));
        lemma_line_starts_prefix(t2, start, n2);
        assert(line_starts_upto(t2, start) == pre);
        assert(st.subrange(0, pre.len() as int)[l] == st[l]);
        assert(pre[l] == start);
        assert(st2.subrange(0, pre.len() as int)[l] == st2[l]);
        assert(st2[l] == start);
    }
    assert(line_start(t2, l) == start);
    assert(char_index(t2, p) == i);
    // The line's next start in the new text is not before `i`.
    let next = line_start(t2, l + 1);
    if l + 1 < st2.len() {
        assert(st2[l + 1] > st2[l]);
        if next < i {
            lemma_line_starts_sound(t2, n2, l + 1);
            lemma_breaks_before_insert(t, i, ch, next);
            lemma_line_starts_complete(t, n, next);
            let j = choose|j: int| 0 <= j < st.len() && st[j] == next;
            if j <= l {
                assert(st[j] <= st[l]);
            } else if j == l + 1 {
                assert(line_start(t, l + 1) == next);
            } else {
                assert(st[j] > st[l + 1]);
            }
        }
    }
    assert(next >= i);
    // The characters before `i` on the line survive the stripping of line feeds.
    if c > 0 {
        if t[i - 1] == '\n' {
            assert(break_ends_at(t, i));
            lemma_line_starts_complete(t, n, i);
            let j = choose|j: int| 0 <= j < st.len() && st[j] == i;
            if j <= l {
                assert(st[j] <= st[l]);
            }
            if l + 1 < st.len() {
                if j > l + 1 {
                    assert(st[j] > st[l + 1]);
                }
                assert(line_start(t, l + 1) == i);
            }
            let x = line_text(t, l);
            assert(x.last() == '\n');
            lemma_strip_newlines(x.drop_last());
            assert(false);
        }
        let y = line_text(t2, l);
        assert(y[c - 1] == t[i - 1]);
        lemma_strip_keeps(y, c);
    }
    assert(t2.remove(i) =~= t);
}

impl Buffer {
    /// An empty buffer with no file path, no changes and no selection.
    pub fn new() -> (r: Self)
        ensures
            r@.text == Seq::<char>::empty(),
            r@.file_path is None,
            !r@.dirty,
            r@.selection is None,
    {
        Buffer { rope: rope_new(), file_path: None, dirty: false, selection: None }
    }

    /// A buffer holding `content`, with no file path, no changes and no
    /// selection.
    pub fn from_str(content: &str) -> (r: Self)
        ensures
            r@.text == content@,
            r@.file_path is None,
            !r@.dirty,
            r@.selection is None,
    {
        Buffer { rope: rope_from_str(content), file_path: None, dirty: false, selection: None }
    }

    /// Inserts `ch` at `pos`.  Succeeds exactly when the position is valid;
    /// the buffer then becomes dirty.  On failure nothing changes.
    pub fn insert_char(&mut self, ch: char, pos: Position) -> (r: bool)
        ensures
            r == valid_position(old(self)@.text, pos),
            r ==> final(self)@.text == old(self)@.text.insert(char_index(old(self)@.text, pos), ch),
            r ==> final(self)@.dirty,
            !r ==> final(self)@.text == old(self)@.text && final(self)@.dirty == old(self)@.dirty,
            final(self)@.file_path == old(self)@.file_path,
            final(self)@.selection == old(self)@.selection,
    {
        if let Some(char_idx) = self.position_to_char_idx(pos) {
            if char_idx <= rope_len_chars(&self.rope) {
                rope_insert_char(&mut self.rope, char_idx, ch);
                self.dirty = true;
                return true;
            }
        }
        false
    }

    /// Deletes the character at `pos`.  Succeeds exactly when the position
    /// is valid and a character follows it; the buffer then becomes dirty.
    pub fn delete_char_at(&mut self, pos: Position) -> (r: bool)
        ensures
            r == (valid_position(old(self)@.text, pos) && char_index(old(self)@.text, pos) < old(
                self,
            )@.text.len()),
            r ==> final(self)@.text == old(self)@.text.remove(char_index(old(self)@.text, pos)),
            r ==> final(self)@.dirty,
            !r ==> final(self)@.text == old(self)@.text && final(self)@.dirty == old(self)@.dirty,
            final(self)@.file_path == old(self)@.file_path,
            final(self)@.selection == old(self)@.selection,
    {
        if let Some(char_idx) = self.position_to_char_idx(pos) {
            if char_idx < rope_len_chars(&self.rope) {
                rope_remove(&mut self.rope, char_idx, char_idx + 1);
                proof {
                    let t = old(self)@.text;
                    assert(t.subrange(0, char_idx as int) + t.subrange(char_idx + 1, t.len() as int)
                        =~= t.remove(char_idx as int));
                }
                self.dirty = true;
                return true;
            }
        }
        false
    }

    /// Deletes the character at the cursor (forward delete); at a line end
    /// this joins the next line.  Same as `delete_char_at`.
    pub fn delete_forward(&mut self, pos: Position) -> (r: bool)
        ensures
            r == (valid_position(old(self)@.text, pos) && char_index(old(self)@.text, pos) < old(
                self,
            )@.text.len()),
            r ==> final(self)@.text == old(self)@.text.remove(char_index(old(self)@.text, pos)),
            r ==> final(self)@.dirty,
            !r ==> final(self)@.text == old(self)@.text && final(self)@.dirty == old(self)@.dirty,
            final(self)@.file_path == old(self)@.file_path,
            final(self)@.selection == old(self)@.selection,
    {
        self.delete_char_at(pos)
    }

    /// The start (column 0) of `pos`'s line.
    pub fn get_line_start(&self, pos: Position) -> (r: Position)
        ensures
            r.line == pos.line,
            r.column == 0,
    {
        Position { line: pos.line, column: 0 }
    }

    /// The end of `pos`'s line: its length without the LF, or 0 when the line
    /// does not exist.
    pub fn get_line_end(&self, pos: Position) -> (r: Position)
        ensures
            r.line == pos.line,
            r.column == length_or_zero(self@.text, pos.line as int),
    {
        let len = match self.line_len(pos.line) {
            Some(l) => l,
            None => 0,
        };
        Position { line: pos.line, column: len }
    }

    /// Moves up by `viewport_height` lines, stopping at the first line; the
    /// column is capped at the new line's length.
    pub fn page_up(&self, pos: Position, viewport_height: usize) -> (r: Position)
        ensures
            r.line == (if pos.line >= viewport_height {
                pos.line - viewport_height
            } else {
                0
            }),
            r.column == (if pos.column <= length_or_zero(self@.text, r.line as int) {
                pos.column as nat
            } else {
                length_or_zero(self@.text, r.line as int)
            }),
    {
        let new_line = pos.line.saturating_sub(viewport_height);
        let column = self.clamp_column_to_line(new_line, pos.column);
        Position { line: new_line, column }
    }

    /// Moves down by `viewport_height` lines, stopping at the last line; the
    /// column is capped at the new line's length.
    pub fn page_down(&self, pos: Position, viewport_height: usize) -> (r: Position)
        requires
            pos.line + viewport_height <= usize::MAX,
        ensures
            r.line == (if pos.line + viewport_height <= line_total(self@.text) - 1 {
                pos.line + viewport_height
            } else {
                line_total(self@.text) - 1
            }),
            r.column == (if pos.column <= length_or_zero(self@.text, r.line as int) {
                pos.column as nat
            } else {
                length_or_zero(self@.text, r.line as int)
            }),
    {
        proof {
            lemma_line_total_positive(self@.text);
        }
        let max_line = rope_len_lines(&self.rope).saturating_sub(1);
        let target = pos.line + viewport_height;
        let new_line = if target < max_line {
            target
        } else {
            max_line
        };
        let column = self.clamp_column_to_line(new_line, pos.column);
        Position { line: new_line, column }
    }

    fn clamp_column_to_line(&self, line: usize, column: usize) -> (r: usize)
        ensures
            r == (if column <= length_or_zero(self@.text, line as int) {
                column as nat
            } else {
                length_or_zero(self@.text, line as int)
            }),
    {
        match self.line_len(line) {
            Some(len) => if column < len {
                column
            } else {
                len
            },
            None => 0,
        }
    }

    /// The whole text.
    pub fn content(&self) -> (r: String)
        ensures
            r@ == self@.text,
    {
        rope_to_string(&self.rope)
    }

    /// The number of lines: an empty buffer has one line, and a line break
    /// adds one.
    pub fn line_count(&self) -> (r: usize)
        ensures
            r == line_total(self@.text),
    {
        rope_len_lines(&self.rope)
    }

    /// The text of line `line` with its line break, or `None` past the last
    /// line.
    pub fn get_line(&self, line: usize) -> (r: Option<String>)
        ensures
            line < line_total(self@.text) ==> (r matches Some(s) && s@ == line_text(
                self@.text,
                line as int,
            )),
            line >= line_total(self@.text) ==> r is None,
    {
        if line < rope_len_lines(&self.rope) {
            Some(rope_line_string(&self.rope, line))
        } else {
            None
        }
    }

    /// The length of line `line` without its LF, or `None` past the last
    /// line.
    pub fn line_len(&self, line: usize) -> (r: Option<usize>)
        ensures
            line < line_total(self@.text) ==> r == Some(line_length(self@.text, line as int) as usize),
            line >= line_total(self@.text) ==> r is None,
            r matches Some(n) ==> n == line_length(self@.text, line as int),
    {
        if line < rope_len_lines(&self.rope) {
            let s = rope_line_string(&self.rope, line);
            let mut n = s.unicode_len();
            assert(s@.subrange(0, n as int) =~= s@);
            while n > 0 && s.get_char(n - 1) == '\n'
                invariant
                    n <= s@.len(),
                    strip_newlines(s@) == strip_newlines(s@.subrange(0, n as int)),
                decreases n,
            {
                assert(s@.subrange(0, n as int).drop_last() =~= s@.subrange(0, n - 1));
                n = n - 1;
            }
            Some(n)
        } else {
            None
        }
    }

    /// Whether there are unsaved changes.
    pub fn is_dirty(&self) -> (r: bool)
        ensures
            r == self@.dirty,
    {
        self.dirty
    }

    /// Marks the buffer as saved.
    pub fn clear_dirty(&mut self)
        ensures
            !final(self)@.dirty,
            final(self)@.text == old(self)@.text,
            final(self)@.file_path == old(self)@.file_path,
            final(self)@.selection == old(self)@.selection,
    {
        self.dirty = false;
    }

    /// Marks the buffer as changed.
    pub fn set_dirty(&mut self)
        ensures
            final(self)@.dirty,
            final(self)@.text == old(self)@.text,
            final(self)@.file_path == old(self)@.file_path,
            final(self)@.selection == old(self)@.selection,
    {
        self.dirty = true;
    }

    /// The associated file path, if any.
    pub fn file_path(&self) -> (r: Option<&String>)
        ensures
            match self@.file_path {
                Some(p) => r matches Some(s) && s@ == p,
                None => r is None,
            },
    {
        match &self.file_path {
            Some(p) => Some(p),
            None => None,
        }
    }

    /// Associates a file path.
    pub fn set_file_path(&mut self, path: String)
        ensures
            final(self)@.file_path == Some(path@),
            final(self)@.text == old(self)@.text,
            final(self)@.dirty == old(self)@.dirty,
            final(self)@.selection == old(self)@.selection,
    {
        self.file_path = Some(path);
    }

    /// Whether `pos` is a valid position (a line end included).
    pub fn is_valid_position(&self, pos: Position) -> (r: bool)
        ensures
            r == valid_position(self@.text, pos),
    {
        if pos.line >= rope_len_lines(&self.rope) {
            return false;
        }
        match self.line_len(pos.line) {
            Some(line_length) => pos.column <= line_length,
            None => false,
        }
    }

    /// The nearest valid position.
    pub fn clamp_position(&self, pos: Position) -> (r: Position)
        ensures
            r == clamp(self@.text, pos),
            valid_position(self@.text, r),
    {
        proof {
            lemma_line_total_positive(self@.text);
            let _ = rope_text(self.rope).len();
        }
        let n = rope_len_chars(&self.rope);
        proof {
            lemma_clamp_valid(self@.text, pos);
        }
        let max_line = rope_len_lines(&self.rope).saturating_sub(1);
        let line = if pos.line < max_line {
            pos.line
        } else {
            max_line
        };
        let max_column = match self.line_len(line) {
            Some(l) => l,
            None => 0,
        };
        let column = if pos.column < max_column {
            pos.column
        } else {
            max_column
        };
        Position { line, column }
    }

    fn position_to_char_idx(&self, pos: Position) -> (r: Option<usize>)
        ensures
            valid_position(self@.text, pos) ==> r == Some(char_index(self@.text, pos) as usize),
            !valid_position(self@.text, pos) ==> r is None,
            r matches Some(i) ==> i == char_index(self@.text, pos) && i <= self@.text.len(),
    {
        let n = rope_len_chars(&self.rope);
        if pos.line >= rope_len_lines(&self.rope) {
            return None;
        }
        let line_start = rope_line_to_char(&self.rope, pos.line);
        let line_len = match self.line_len(pos.line) {
            Some(l) => l,
            None => 0,
        };
        if pos.column > line_len {
            return None;
        }
        proof {
            lemma_valid_index(self@.text, pos);
        }
        Some(line_start + pos.column)
    }

    /// The number of characters.
    pub fn len_chars(&self) -> (r: usize)
        ensures
            r == self@.text.len(),
    {
        rope_len_chars(&self.rope)
    }

    /// Whether the text is empty.
    pub fn is_empty(&self) -> (r: bool)
        ensures
            r == (self@.text.len() == 0),
    {
        rope_len_chars(&self.rope) == 0
    }

    /// The current selection, if any.
    pub fn selection(&self) -> (r: Option<&Selection>)
        ensures
            match self@.selection {
                Some(s) => r == Some(&s),
                None => r is None,
            },
    {
        match &self.selection {
            Some(s) => Some(s),
            None => None,
        }
    }

    /// Sets or clears the selection.
    pub fn set_selection(&mut self, selection: Option<Selection>)
        ensures
            final(self)@.selection == selection,
            final(self)@.text == old(self)@.text,
            final(self)@.dirty == old(self)@.dirty,
            final(self)@.file_path == old(self)@.file_path,
    {
        self.selection = selection;
    }

    /// Whether a selection exists and selects text.
    pub fn has_selection(&self) -> (r: bool)
        ensures
            r == (self@.selection matches Some(s) && s@.0 != s@.1),
    {
        match &self.selection {
            Some(s) => s.has_selection(),
            None => false,
        }
    }

    /// The selected text, both bounds clamped into the text; `None` when
    /// nothing is selected.
    pub fn selected_text(&self) -> (r: Option<String>)
        ensures
            match selection_span(self@) {
                Some((i, j)) => r matches Some(s) && s@ == self@.text.subrange(i, j),
                None => r is None,
            },
            self@.text.len() <= usize::MAX,
    {
        let n = rope_len_chars(&self.rope);
        let selection = match &self.selection {
            Some(s) => s,
            None => return None,
        };
        if !selection.has_selection() {
            return None;
        }
        let (start, end) = selection.range();
        let start = self.clamp_position(start);
        let end = self.clamp_position(end);
        let start_idx = match self.position_to_char_idx(start) {
            Some(i) => i,
            None => return None,
        };
        let end_idx = match self.position_to_char_idx(end) {
            Some(i) => i,
            None => return None,
        };
        let end_idx = if end_idx < n {
            end_idx
        } else {
            n
        };
        if start_idx >= end_idx {
            return None;
        }
        Some(rope_slice_string(&self.rope, start_idx, end_idx))
    }

    /// Deletes the selected text and clears the selection.  Returns whether
    /// text was deleted; the selection is cleared in every case.
    pub fn delete_selection(&mut self) -> (r: bool)
        ensures
            r == (selection_span(old(self)@) is Some),
            final(self)@.selection is None,
            final(self)@.file_path == old(self)@.file_path,
            match selection_span(old(self)@) {
                Some((i, j)) => final(self)@.text == old(self)@.text.subrange(0, i) + old(
                    self,
                )@.text.subrange(j, old(self)@.text.len() as int) && final(self)@.dirty,
                None => final(self)@.text == old(self)@.text && final(self)@.dirty == old(
                    self,
                )@.dirty,
            },
            old(self)@.text.len() <= usize::MAX,
    {
        let n = rope_len_chars(&self.rope);
        let taken = self.selection;
        self.selection = None;
        let selection = match taken {
            Some(s) => {
                if s.has_selection() {
                    s
                } else {
                    return false;
                }
            },
            None => return false,
        };
        let (start, end) = selection.range();
        let start = self.clamp_position(start);
        let end = self.clamp_position(end);
        let start_idx = match self.position_to_char_idx(start) {
            Some(i) => i,
            None => return false,
        };
        let end_idx = match self.position_to_char_idx(end) {
            Some(i) => i,
            None => return false,
        };
        let end_idx = if end_idx < n {
            end_idx
        } else {
            n
        };
        if start_idx >= end_idx {
            return false;
        }
        rope_remove(&mut self.rope, start_idx, end_idx);
        self.dirty = true;
        true
    }

    /// The end of the text: the last line and its length.
    pub fn end_position(&self) -> (r: Position)
        ensures
            r.line == line_total(self@.text) - 1,
            r.column == line_length(self@.text, r.line as int),
            valid_position(self@.text, r),
    {
        proof {
            lemma_line_total_positive(self@.text);
        }
        let last_line = rope_len_lines(&self.rope).saturating_sub(1);
        let last_column = match self.line_len(last_line) {
            Some(l) => l,
            None => 0,
        };
        Position::new(last_line, last_column)
    }
}

impl Clone for Buffer {
    /// A buffer with the same text, path, flag and selection.
    fn clone(&self) -> (r: Self)
        ensures
            r@ == self@,
    {
        Buffer {
            rope: rope_clone(&self.rope),
            file_path: self.file_path.clone(),
            dirty: self.dirty,
            selection: self.selection,
        }
    }
}

impl Default for Buffer {
    fn default() -> (r: Self)
        ensures
            r@.text == Seq::<char>::empty(),
            r@.file_path is None,
            !r@.dirty,
            r@.selection is None,
    {
        Self::new()
    }
}

} // verus!
