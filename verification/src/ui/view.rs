//! The renderer's decisions: which lines are in view, where the cursor is
//! drawn, what the status bar says and in which color a message shows, and
//! whether a frame needs drawing at all.
use vstd::prelude::*;
use crate::buffer::lines::{line_text, line_total, strip_newlines, lemma_line_total_positive};
use crate::buffer::{Buffer, Position};
use crate::editor::{EditorMode, EditorState, EditorStateModel, mode_label};
use crate::textops::{decimal, push_decimal, starts_with, starts_with_str};
use super::theme::{Color, Theme};

verus! {

/// The number of screen lines the status area takes.
pub const STATUS_AREA_HEIGHT: usize = 2;

/// The lines of text that fit in a terminal of `terminal_height` lines,
/// below which the status area sits.
pub fn visible_height(terminal_height: usize) -> (r: usize)
    ensures
        r == (if terminal_height >= STATUS_AREA_HEIGHT {
            terminal_height - STATUS_AREA_HEIGHT
        } else {
            0
        }),
{
    terminal_height.saturating_sub(STATUS_AREA_HEIGHT)
}

/// The first line in view after the cursor moved to line `cursor_line`:
/// unchanged while the cursor is in view, else scrolled just enough to
/// show it (at the bottom when it went below, at the top when above).  A
/// terminal with no room for text keeps the scroll.
pub open spec fn scrolled(scroll_offset: usize, cursor_line: usize, terminal_height: usize) -> usize {
    let h: int = if terminal_height >= STATUS_AREA_HEIGHT {
        terminal_height - STATUS_AREA_HEIGHT
    } else {
        0
    };
    if h == 0 {
        scroll_offset
    } else {
        let down: usize = if cursor_line >= scroll_offset + h {
            if cursor_line >= h - 1 {
                (cursor_line - (h - 1)) as usize
            } else {
                0
            }
        } else {
            scroll_offset
        };
        if cursor_line < down {
            cursor_line
        } else {
            down
        }
    }
}

/// Scrolling brings the cursor into view with the least movement: with room
/// for at least one line, the cursor's line is in view afterwards; a view
/// that already shows it does not move; and no other offset that shows it
/// is nearer the old one.
pub proof fn law_scroll_moves_least(scroll_offset: usize, cursor_line: usize, terminal_height: usize)
    requires
        terminal_height > STATUS_AREA_HEIGHT,
    ensures
        ({
            let h = terminal_height - STATUS_AREA_HEIGHT;
            let r = scrolled(scroll_offset, cursor_line, terminal_height);
            &&& r <= cursor_line < r + h
            &&& scroll_offset <= cursor_line < scroll_offset + h ==> r == scroll_offset
            &&& forall|other: int|
                0 <= other <= cursor_line < other + h ==> distance(r as int, scroll_offset as int)
                    <= distance(other, scroll_offset as int)
        }),
{
}

/// How far apart two offsets are.
pub open spec fn distance(a: int, b: int) -> int {
    if a >= b {
        a - b
    } else {
        b - a
    }
}

/// The scroll offset that keeps the cursor in view (see [`scrolled`]).
pub fn adjust_scroll(scroll_offset: usize, cursor: Position, terminal_height: usize) -> (r: usize)
    requires
        scroll_offset + terminal_height <= usize::MAX,
    ensures
        r == scrolled(scroll_offset, cursor.line, terminal_height),
        terminal_height > STATUS_AREA_HEIGHT ==> r <= cursor.line < r + (terminal_height
            - STATUS_AREA_HEIGHT),
{
    let h = visible_height(terminal_height);
    if h == 0 {
        return scroll_offset;
    }
    let mut offset = scroll_offset;
    if cursor.line >= offset + h {
        offset = cursor.line.saturating_sub(h - 1);
    }
    if cursor.line < offset {
        offset = cursor.line;
    }
    offset
}

/// The screen area where the text is drawn.
#[derive(Debug, Clone, Copy, PartialEq, Eq, Structural)]
pub struct TextArea {
    /// The leftmost column.
    pub x: u16,
    /// The top row.
    pub y: u16,
    /// The number of columns.
    pub width: u16,
    /// The number of rows.
    pub height: u16,
}

/// The screen cell of the cursor, when it is in view: its column offset by
/// the area's left edge (as a 16-bit column), its line offset by the scroll
/// and by the area's top.
pub open spec fn cursor_cell(cursor: Position, area: TextArea, scroll_offset: usize) -> Option<(u16, u16)> {
    if cursor.line < scroll_offset || cursor.line - scroll_offset >= area.height {
        None
    } else {
        let x = area.x + (cursor.column as u16);
        let y = area.y + (cursor.line - scroll_offset);
        if x >= area.x + area.width || y >= area.y + area.height {
            None
        } else {
            Some((x as u16, y as u16))
        }
    }
}

/// The cursor's cell always lies inside the text area, and a cursor shown
/// by the view sits in the column of its own column and in the row of its
/// line counted from the first line in view.
pub proof fn law_cursor_cell_in_area(cursor: Position, area: TextArea, scroll_offset: usize)
    requires
        area.x + area.width <= u16::MAX,
        area.y + area.height <= u16::MAX,
    ensures
        cursor_cell(cursor, area, scroll_offset) matches Some((x, y)) ==> {
            &&& area.x <= x < area.x + area.width
            &&& area.y <= y < area.y + area.height
        },
        scroll_offset <= cursor.line < scroll_offset + area.height && cursor.column < area.width
            ==> cursor_cell(cursor, area, scroll_offset) == Some(
            ((area.x + cursor.column) as u16, (area.y + (cursor.line - scroll_offset)) as u16),
        ),
{
}

/// Where the cursor is drawn (see [`cursor_cell`]).
pub fn cursor_screen_position(cursor: Position, area: TextArea, scroll_offset: usize) -> (r: Option<(u16, u16)>)
    requires
        area.x + area.width <= u16::MAX,
        area.y + area.height <= u16::MAX,
        area.x + (cursor.column as u16) <= u16::MAX,
    ensures
        r == cursor_cell(cursor, area, scroll_offset),
{
    if cursor.line < scroll_offset {
        return None;
    }
    let visible_line = cursor.line - scroll_offset;
    if visible_line >= area.height as usize {
        return None;
    }
    let column = cursor.column as u16;
    let x = area.x + column;
    let y = area.y + visible_line as u16;
    if x >= area.x + area.width || y >= area.y + area.height {
        return None;
    }
    Some((x, y))
}

/// The redraw fingerprint of what the screen shows: the text's length and
/// line count, the dirty flag, the cursor, the mode, whether a status message
/// shows, and the scroll, each XORed in at its own bit offset.
pub open spec fn frame_fingerprint(m: EditorStateModel, cursor: Position, scroll_offset: usize) -> u64 {
    let mode_bits: u64 = match m.mode {
        EditorMode::Insert => 1,
        EditorMode::Normal => 2,
        EditorMode::Prompt => 3,
    };
    (m.buffer.text.len() as u64) ^ ((line_total(m.buffer.text) as u64) << 16u64) ^ ((if m.buffer.dirty {
        1u64
    } else {
        0u64
    }) << 32u64) ^ ((cursor.line as u64) << 8u64) ^ ((cursor.column as u64) << 24u64) ^ (mode_bits
        << 40u64) ^ ((if m.status_message is Some {
        3u64
    } else {
        0u64
    }) << 48u64) ^ ((scroll_offset as u64) << 56u64)
}

proof fn lemma_fingerprint_dirty_differs(a: u64, b: u64, c: u64, d: u64, e: u64, f: u64, g: u64, h: u64, c2: u64)
    by (bit_vector)
    requires
        c != c2,
        c < 4u64,
        c2 < 4u64,
    ensures
        a ^ (b << 16u64) ^ (c << 32u64) ^ (d << 8u64) ^ (e << 24u64) ^ (f << 40u64) ^ (g << 48u64) ^ (h << 56u64) != a ^ (b << 16u64) ^ (c2 << 32u64) ^ (d << 8u64) ^ (e << 24u64) ^ (f << 40u64) ^ (g << 48u64) ^ (h << 56u64),
{
}

proof fn lemma_fingerprint_line_differs(a: u64, b: u64, c: u64, d: u64, e: u64, f: u64, g: u64, h: u64, d2: u64)
    by (bit_vector)
    requires
        d != d2,
        d < 0x100_0000_0000_0000u64,
        d2 < 0x100_0000_0000_0000u64,
    ensures
        a ^ (b << 16u64) ^ (c << 32u64) ^ (d << 8u64) ^ (e << 24u64) ^ (f << 40u64) ^ (g << 48u64) ^ (h << 56u64) != a ^ (b << 16u64) ^ (c << 32u64) ^ (d2 << 8u64) ^ (e << 24u64) ^ (f << 40u64) ^ (g << 48u64) ^ (h << 56u64),
{
}

proof fn lemma_fingerprint_column_differs(a: u64, b: u64, c: u64, d: u64, e: u64, f: u64, g: u64, h: u64, e2: u64)
    by (bit_vector)
    requires
        e != e2,
        e < 0x100_0000_0000u64,
        e2 < 0x100_0000_0000u64,
    ensures
        a ^ (b << 16u64) ^ (c << 32u64) ^ (d << 8u64) ^ (e << 24u64) ^ (f << 40u64) ^ (g << 48u64) ^ (h << 56u64) != a ^ (b << 16u64) ^ (c << 32u64) ^ (d << 8u64) ^ (e2 << 24u64) ^ (f << 40u64) ^ (g << 48u64) ^ (h << 56u64),
{
}

proof fn lemma_fingerprint_mode_differs(a: u64, b: u64, c: u64, d: u64, e: u64, f: u64, g: u64, h: u64, f2: u64)
    by (bit_vector)
    requires
        f != f2,
        f < 4u64,
        f2 < 4u64,
    ensures
        a ^ (b << 16u64) ^ (c << 32u64) ^ (d << 8u64) ^ (e << 24u64) ^ (f << 40u64) ^ (g << 48u64) ^ (h << 56u64) != a ^ (b << 16u64) ^ (c << 32u64) ^ (d << 8u64) ^ (e << 24u64) ^ (f2 << 40u64) ^ (g << 48u64) ^ (h << 56u64),
{
}

proof fn lemma_fingerprint_status_differs(a: u64, b: u64, c: u64, d: u64, e: u64, f: u64, g: u64, h: u64, g2: u64)
    by (bit_vector)
    requires
        g != g2,
        g < 4u64,
        g2 < 4u64,
    ensures
        a ^ (b << 16u64) ^ (c << 32u64) ^ (d << 8u64) ^ (e << 24u64) ^ (f << 40u64) ^ (g << 48u64) ^ (h << 56u64) != a ^ (b << 16u64) ^ (c << 32u64) ^ (d << 8u64) ^ (e << 24u64) ^ (f << 40u64) ^ (g2 << 48u64) ^ (h << 56u64),
{
}

/// The mode's bits in the fingerprint.
pub open spec fn mode_bits(m: EditorMode) -> u64 {
    match m {
        EditorMode::Insert => 1,
        EditorMode::Normal => 2,
        EditorMode::Prompt => 3,
    }
}

/// The dirty flag's bits in the fingerprint.
pub open spec fn dirty_bits(dirty: bool) -> u64 {
    if dirty {
        1
    } else {
        0
    }
}

/// The status message's bits in the fingerprint.
pub open spec fn status_bits(m: Option<Seq<char>>) -> u64 {
    if m is Some {
        3
    } else {
        0
    }
}

/// Two states with the same text length and line count, drawn with the same
/// scroll, get the same fingerprint when they agree on the dirty flag, the
/// mode, whether a status message shows and the cursor; they get different
/// fingerprints when they differ in exactly one of these (for cursor lines
/// below 2^56 and columns below 2^40, which the fingerprint keeps whole).
pub proof fn law_fingerprint_tells_frames_apart(
    m1: EditorStateModel,
    c1: Position,
    m2: EditorStateModel,
    c2: Position,
    scroll_offset: usize,
)
    requires
        m1.buffer.text.len() == m2.buffer.text.len(),
        line_total(m1.buffer.text) == line_total(m2.buffer.text),
        c1.line < 0x100_0000_0000_0000,
        c2.line < 0x100_0000_0000_0000,
        c1.column < 0x100_0000_0000,
        c2.column < 0x100_0000_0000,
    ensures
        ({
            let f1 = frame_fingerprint(m1, c1, scroll_offset);
            let f2 = frame_fingerprint(m2, c2, scroll_offset);
            let same_dirty = m1.buffer.dirty == m2.buffer.dirty;
            let same_mode = m1.mode == m2.mode;
            let same_status = (m1.status_message is Some) == (m2.status_message is Some);
            let same_line = c1.line == c2.line;
            let same_column = c1.column == c2.column;
            &&& same_dirty && same_mode && same_status && same_line && same_column ==> f1 == f2
            &&& !same_dirty && same_mode && same_status && same_line && same_column ==> f1 != f2
            &&& same_dirty && !same_mode && same_status && same_line && same_column ==> f1 != f2
            &&& same_dirty && same_mode && !same_status && same_line && same_column ==> f1 != f2
            &&& same_dirty && same_mode && same_status && !same_line && same_column ==> f1 != f2
            &&& same_dirty && same_mode && same_status && same_line && !same_column ==> f1 != f2
        }),
{
    let a = m1.buffer.text.len() as u64;
    let b = line_total(m1.buffer.text) as u64;
    let c = dirty_bits(m1.buffer.dirty);
    let d = c1.line as u64;
    let e = c1.column as u64;
    let f = mode_bits(m1.mode);
    let g = status_bits(m1.status_message);
    let h = scroll_offset as u64;
    let c_ = dirty_bits(m2.buffer.dirty);
    let d_ = c2.line as u64;
    let e_ = c2.column as u64;
    let f_ = mode_bits(m2.mode);
    let g_ = status_bits(m2.status_message);
    if m1.buffer.dirty != m2.buffer.dirty {
        lemma_fingerprint_dirty_differs(a, b, c, d, e, f, g, h, c_);
    }
    if m1.mode != m2.mode {
        lemma_fingerprint_mode_differs(a, b, c, d, e, f, g, h, f_);
    }
    if (m1.status_message is Some) != (m2.status_message is Some) {
        lemma_fingerprint_status_differs(a, b, c, d, e, f, g, h, g_);
    }
    if c1.line != c2.line {
        lemma_fingerprint_line_differs(a, b, c, d, e, f, g, h, d_);
    }
    if c1.column != c2.column {
        lemma_fingerprint_column_differs(a, b, c, d, e, f, g, h, e_);
    }
}

/// The redraw fingerprint of the state, cursor and scroll (see
/// [`frame_fingerprint`]).
pub fn frame_hash(state: &EditorState, cursor: Position, scroll_offset: usize) -> (r: u64)
    ensures
        r == frame_fingerprint(state@, cursor, scroll_offset),
{
    let buffer = state.buffer();
    let len = buffer.len_chars() as u64;
    assert(0u64 ^ len == len) by (bit_vector);
    let mut hash: u64 = 0;
    hash = hash ^ len;
    hash = hash ^ ((buffer.line_count() as u64) << 16u64);
    hash = hash ^ ((if buffer.is_dirty() {
        1u64
    } else {
        0u64
    }) << 32u64);
    hash = hash ^ ((cursor.line as u64) << 8u64);
    hash = hash ^ ((cursor.column as u64) << 24u64);
    let mode_bits: u64 = match state.mode() {
        EditorMode::Insert => 1,
        EditorMode::Normal => 2,
        EditorMode::Prompt => 3,
    };
    hash = hash ^ (mode_bits << 40u64);
    hash = hash ^ ((if state.status_message().is_some() {
        3u64
    } else {
        0u64
    }) << 48u64);
    hash = hash ^ ((scroll_offset as u64) << 56u64);
    hash
}

/// What `Path::file_name` gives, as text, for the path with the characters
/// `p`: the last component, if the path has one.  Components are split by
/// the separators of the platform the crate is built for.
pub uninterp spec fn path_file_name(p: Seq<char>) -> Option<Seq<char>>;

/// `Path::file_name` of a path given as text.
#[verifier::external_body]
fn file_name_of(path: &str) -> (r: Option<String>)
    ensures
        match r {
            Some(n) => path_file_name(path@) == Some(n@),
            None => path_file_name(path@) is None,
        },
{
    std::path::Path::new(path).file_name().and_then(|n| n.to_str()).map(|n| n.to_string())
}

/// The status bar's text: the file name with ` *` when there are unsaved
/// changes, the mode, and the cursor's line and column counted from 1.
pub open spec fn status_text(name: Seq<char>, dirty: bool, mode: EditorMode, cursor: Position) -> Seq<char> {
    " "@ + name + (if dirty {
        " *"@
    } else {
        ""@
    }) + " | "@ + mode_label(mode) + " | "@ + decimal((cursor.line + 1) as nat) + ":"@ + decimal(
        (cursor.column + 1) as nat,
    )
}

/// The file name the status bar shows: the last component of the buffer's
/// path, or `[No Name]`.
pub open spec fn shown_file_name(m: EditorStateModel) -> Seq<char> {
    match m.buffer.file_path {
        Some(p) => match path_file_name(p) {
            Some(n) => n,
            None => "[No Name]"@,
        },
        None => "[No Name]"@,
    }
}

/// The status bar's text for a file name (see [`status_text`]).
pub fn format_status_line(filename: &str, dirty: bool, mode: EditorMode, cursor: Position) -> (r: String)
    requires
        cursor.line < usize::MAX,
        cursor.column < usize::MAX,
    ensures
        r@ == status_text(filename@, dirty, mode, cursor),
{
    let mut r = String::from_str(" ");
    r.append(filename);
    let ghost head = r@;
    if dirty {
        r.append(" *");
    }
    proof {
        reveal_strlit("");
        assert(r@ =~= head + (if dirty {
            " *"@
        } else {
            ""@
        }));
    }
    r.append(" | ");
    r.append(mode.to_string());
    r.append(" | ");
    push_decimal(&mut r, cursor.line + 1);
    r.append(":");
    push_decimal(&mut r, cursor.column + 1);
    r
}

/// The status bar's text for the state and cursor.
pub fn status_line(state: &EditorState, cursor: Position) -> (r: String)
    requires
        cursor.line < usize::MAX,
        cursor.column < usize::MAX,
    ensures
        r@ == status_text(shown_file_name(state@), state@.buffer.dirty, state@.mode, cursor),
{
    let buffer = state.buffer();
    let name = match buffer.file_path() {
        Some(p) => match file_name_of(p.as_str()) {
            Some(n) => n,
            None => String::from_str("[No Name]"),
        },
        None => String::from_str("[No Name]"),
    };
    format_status_line(name.as_str(), buffer.is_dirty(), state.mode(), cursor)
}

/// The kind of a status message, read from its prefix.
#[derive(Debug, Clone, Copy, PartialEq, Eq, Structural)]
pub enum MessageKind {
    /// Starts with `Error:`.
    Error,
    /// Starts with `Warning:`.
    Warning,
    /// Starts with `Info:`.
    Info,
    /// Anything else: a success message.
    Success,
}

/// The kind of a message with the characters `m`.
pub open spec fn kind_of_message(m: Seq<char>) -> MessageKind {
    if starts_with(m, "Error:"@) {
        MessageKind::Error
    } else if starts_with(m, "Warning:"@) {
        MessageKind::Warning
    } else if starts_with(m, "Info:"@) {
        MessageKind::Info
    } else {
        MessageKind::Success
    }
}

/// The kind of a status message.
pub fn message_kind(message: &str) -> (r: MessageKind)
    ensures
        r == kind_of_message(message@),
{
    if starts_with_str(message, "Error:") {
        MessageKind::Error
    } else if starts_with_str(message, "Warning:") {
        MessageKind::Warning
    } else if starts_with_str(message, "Info:") {
        MessageKind::Info
    } else {
        MessageKind::Success
    }
}

/// How a status message is drawn.
#[derive(Debug, Clone, Copy, PartialEq, Eq, Structural)]
pub struct MessageStyle {
    /// The text color.
    pub color: Color,
    /// Whether the text is bold.
    pub bold: bool,
}

/// The style of a message: errors and warnings bold in their colors,
/// information and success messages plain in theirs.
pub fn message_style(theme: &Theme, message: &str) -> (r: MessageStyle)
    ensures
        r == (match kind_of_message(message@) {
            MessageKind::Error => MessageStyle { color: theme.error, bold: true },
            MessageKind::Warning => MessageStyle { color: theme.warning, bold: true },
            MessageKind::Info => MessageStyle { color: theme.info, bold: false },
            MessageKind::Success => MessageStyle { color: theme.success, bold: false },
        }),
{
    match message_kind(message) {
        MessageKind::Error => MessageStyle { color: theme.error, bold: true },
        MessageKind::Warning => MessageStyle { color: theme.warning, bold: true },
        MessageKind::Info => MessageStyle { color: theme.info, bold: false },
        MessageKind::Success => MessageStyle { color: theme.success, bold: false },
    }
}

/// `s` without its trailing line feeds.
fn without_trailing_line_feeds(s: &str) -> (r: String)
    ensures
        r@ == strip_newlines(s@),
{
    let mut n = s.unicode_len();
    assert(s@.subrange(0, n as int) =~= s@);
    while n > 0 && s.get_char(n - 1) == '\n'
        invariant
            n <= s@.len(),
            strip_newlines(s@) == strip_newlines(s@.subrange(0, n as int)),
        decreases n,
    {
        assert(s@.subrange(0, n as int).drop_last() =~= s@.subrange(0, n - 1));
        n = n - 1;
    }
    String::from_str(s.substring_char(0, n))
}

/// The number of lines in view: from `scroll_offset`, at most `height`,
/// up to the last line.
pub open spec fn lines_in_view(t: Seq<char>, scroll_offset: usize, height: usize) -> nat {
    let end = if scroll_offset + height <= line_total(t) {
        scroll_offset + height
    } else {
        line_total(t) as int
    };
    if scroll_offset < end {
        (end - scroll_offset) as nat
    } else {
        0
    }
}

/// The lines in view, each without its trailing line feeds.
pub fn visible_lines(buffer: &Buffer, scroll_offset: usize, height: usize) -> (r: Vec<String>)
    requires
        scroll_offset + height <= usize::MAX,
    ensures
        r@.len() == lines_in_view(buffer@.text, scroll_offset, height),
        forall|i: int|
            0 <= i < r@.len() ==> (#[trigger] r@[i])@ == strip_newlines(
                line_text(buffer@.text, scroll_offset + i),
            ),
{
    let count = buffer.line_count();
    let wanted = scroll_offset + height;
    let end = if wanted < count {
        wanted
    } else {
        count
    };
    let mut lines: Vec<String> = Vec::new();
    let mut line = scroll_offset;
    while line < end
        invariant
            end <= line_total(buffer@.text),
            end == (if scroll_offset + height <= line_total(buffer@.text) {
                scroll_offset + height
            } else {
                line_total(buffer@.text) as int
            }),
            scroll_offset <= line <= end || (line == scroll_offset && end < scroll_offset),
            lines@.len() == line - scroll_offset,
            forall|i: int|
                0 <= i < lines@.len() ==> (#[trigger] lines@[i])@ == strip_newlines(
                    line_text(buffer@.text, scroll_offset + i),
                ),
        decreases end - line,
    {
        match buffer.get_line(line) {
            Some(text) => {
                lines.push(without_trailing_line_feeds(text.as_str()));
            },
            None => {},
        }
        line = line + 1;
    }
    lines
}

/// What the renderer keeps between frames: the scroll offset, the
/// fingerprint of the last frame drawn, and the theme.
#[derive(Debug, Clone)]
pub struct RenderState {
    scroll_offset: usize,
    last_frame_hash: u64,
    theme: Theme,
}

/// The renderer's state as values.
pub struct RenderModel {
    /// The first line in view.
    pub scroll_offset: usize,
    /// The fingerprint of the last frame drawn; 0 forces the next one.
    pub last_frame_hash: u64,
    /// The theme.
    pub theme: Theme,
}

impl View for RenderState {
    type V = RenderModel;

    closed spec fn view(&self) -> RenderModel {
        RenderModel {
            scroll_offset: self.scroll_offset,
            last_frame_hash: self.last_frame_hash,
            theme: self.theme,
        }
    }
}

impl RenderState {
    /// The state before the first frame: no scroll, the next frame drawn.
    pub fn new(theme: Theme) -> (r: Self)
        ensures
            r@ == (RenderModel { scroll_offset: 0, last_frame_hash: 0, theme }),
    {
        RenderState { scroll_offset: 0, last_frame_hash: 0, theme }
    }

    /// The first line in view.
    pub fn scroll_offset(&self) -> (r: usize)
        ensures
            r == self@.scroll_offset,
    {
        self.scroll_offset
    }

    /// Sets the first line in view.
    pub fn set_scroll_offset(&mut self, offset: usize)
        ensures
            final(self)@ == (RenderModel { scroll_offset: offset, ..old(self)@ }),
    {
        self.scroll_offset = offset;
    }

    /// Makes the next frame draw whatever it shows.
    pub fn force_render(&mut self)
        ensures
            final(self)@ == (RenderModel { last_frame_hash: 0, ..old(self)@ }),
    {
        self.last_frame_hash = 0;
    }

    /// The theme.
    pub fn theme(&self) -> (r: &Theme)
        ensures
            *r == self@.theme,
    {
        &self.theme
    }

    /// Sets the theme, and draws the next frame.
    pub fn set_theme(&mut self, theme: Theme)
        ensures
            final(self)@ == (RenderModel { theme, last_frame_hash: 0, ..old(self)@ }),
    {
        self.theme = theme;
        self.force_render();
    }

    /// Decides whether a frame is drawn: not when its fingerprint (taken
    /// with the scroll before adjusting) equals the last one drawn; else the
    /// fingerprint is kept and the scroll adjusted to show the cursor.
    pub fn begin_frame(&mut self, state: &EditorState, cursor: Position, terminal_height: usize) -> (r: bool)
        requires
            old(self)@.scroll_offset + terminal_height <= usize::MAX,
        ensures
            r == (frame_fingerprint(state@, cursor, old(self)@.scroll_offset) != old(self)@.last_frame_hash),
            !r ==> final(self)@ == old(self)@,
            r ==> final(self)@ == (RenderModel {
                scroll_offset: scrolled(old(self)@.scroll_offset, cursor.line, terminal_height),
                last_frame_hash: frame_fingerprint(state@, cursor, old(self)@.scroll_offset),
                theme: old(self)@.theme,
            }),
    {
        let hash = frame_hash(state, cursor, self.scroll_offset);
        if hash == self.last_frame_hash {
            return false;
        }
        self.last_frame_hash = hash;
        self.scroll_offset = adjust_scroll(self.scroll_offset, cursor, terminal_height);
        true
    }
}

} // verus!
