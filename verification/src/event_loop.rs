//! The decisions of the editor's event loop: the command line, what a
//! command or an unbound key does to the state and the cursor, and what a
//! save asks the caller to write.
//!
//! Cursor columns count characters; a line's width is its number of
//! characters without its line feeds.
use vstd::prelude::*;
use crate::buffer::lines::{line_start, line_starts, line_total, lemma_line_bounds, lemma_line_total_positive};
use crate::buffer::{
    Buffer, BufferModel, Position, char_index, law_insert_then_delete_restores, length_or_zero,
    valid_position,
};
use crate::editor::{EditorMode, EditorState, EditorStateModel, SaveRequest, SaveError};
use crate::editor::quit_step;
use crate::input::command::{EditorCommand, same_command};
use crate::input::direction::Direction;
use crate::input::handler::control_or_alt_held;
use crate::input::input_handler::{InputHandler, MatchResult};
use crate::input::keys::{KeyCode, KeyEvent, KeyModifiers};

verus! {

/// The message for a command line with more than one argument.
pub open spec fn usage_message(program: Seq<char>) -> Seq<char> {
    "Usage: "@ + program
        + " [file_path]\n\nArguments:\n  file_path    Optional path to file to open or create"@
}

/// The program name the usage message gives when the command line has none.
pub open spec fn default_program_name() -> Seq<char> {
    "termide"@
}

/// The file to open from the command line (program name first): none
/// without an argument, the argument with one, a usage error with more, and
/// a usage error naming `termide` when even the program name is missing.
pub fn parse_args(args: &[String]) -> (r: Result<Option<String>, String>)
    ensures
        args@.len() == 0 ==> (r matches Err(m) && m@ == usage_message(default_program_name())),
        args@.len() == 1 ==> r == Ok::<Option<String>, String>(None),
        args@.len() == 2 ==> (r matches Ok(Some(p)) && p@ == args@[1]@),
        args@.len() > 2 ==> (r matches Err(m) && m@ == usage_message(args@[0]@)),
{
    if args.len() == 1 {
        Ok(None)
    } else if args.len() == 2 {
        Ok(Some(args[1].clone()))
    } else {
        let mut m = String::from_str("Usage: ");
        if args.len() == 0 {
            m.append("termide");
        } else {
            m.append(args[0].as_str());
        }
        m.append(" [file_path]\n\nArguments:\n  file_path    Optional path to file to open or create");
        Err(m)
    }
}

/// The width of line `line` in characters, without its line feeds; 0 past
/// the last line.
pub open spec fn line_width(t: Seq<char>, line: int) -> nat {
    length_or_zero(t, line)
}

/// The character width of line `line` without its line feeds.
fn line_char_width(buffer: &Buffer, line: usize) -> (r: usize)
    ensures
        r == line_width(buffer@.text, line as int),
{
    match buffer.line_len(line) {
        Some(n) => n,
        None => 0,
    }
}

/// `column` capped at the character width of line `line`; 0 past the last line.
pub fn clamp_column_to_line(line: usize, column: usize, buffer: &Buffer) -> (r: usize)
    ensures
        r == (if column <= line_width(buffer@.text, line as int) {
            column as nat
        } else {
            line_width(buffer@.text, line as int)
        }),
{
    let width = line_char_width(buffer, line);
    if column < width {
        column
    } else {
        width
    }
}

/// The cursor after one step in `direction` over the text `t`: up and down
/// keep the column within the new line, left from a line start goes to the
/// previous line's end, right from a line end to the next line's start; at
/// the text's edges the cursor stays.
pub open spec fn moved_cursor(t: Seq<char>, c: Position, direction: Direction) -> Position {
    match direction {
        Direction::Up => if c.line > 0 {
            let line = (c.line - 1) as usize;
            Position {
                line,
                column: if c.column <= line_width(t, line as int) {
                    c.column
                } else {
                    line_width(t, line as int) as usize
                },
            }
        } else {
            c
        },
        Direction::Down => if c.line + 1 < line_total(t) {
            let line = (c.line + 1) as usize;
            Position {
                line,
                column: if c.column <= line_width(t, line as int) {
                    c.column
                } else {
                    line_width(t, line as int) as usize
                },
            }
        } else {
            c
        },
        Direction::Left => if c.column > 0 {
            Position { line: c.line, column: (c.column - 1) as usize }
        } else if c.line > 0 {
            Position {
                line: (c.line - 1) as usize,
                column: line_width(t, c.line - 1) as usize,
            }
        } else {
            c
        },
        Direction::Right => if c.column < line_width(t, c.line as int) {
            Position { line: c.line, column: (c.column + 1) as usize }
        } else if c.line + 1 < line_total(t) {
            Position { line: (c.line + 1) as usize, column: 0 }
        } else {
            c
        },
    }
}

/// Moves the cursor one step in `direction` within the state's buffer.
pub fn move_cursor(cursor: &mut Position, direction: Direction, state: &EditorState)
    ensures
        *final(cursor) == moved_cursor(state@.buffer.text, *old(cursor), direction),
{
    let buffer = state.buffer();
    let count = buffer.line_count();
    proof {
        lemma_line_total_positive(buffer@.text);
    }
    match direction {
        Direction::Up => {
            if cursor.line > 0 {
                cursor.line = cursor.line - 1;
                cursor.column = clamp_column_to_line(cursor.line, cursor.column, buffer);
            }
        },
        Direction::Down => {
            if cursor.line < count - 1 {
                cursor.line = cursor.line + 1;
                cursor.column = clamp_column_to_line(cursor.line, cursor.column, buffer);
            }
        },
        Direction::Left => {
            if cursor.column > 0 {
                cursor.column = cursor.column - 1;
            } else if cursor.line > 0 {
                cursor.line = cursor.line - 1;
                cursor.column = line_char_width(buffer, cursor.line);
            }
        },
        Direction::Right => {
            let width = line_char_width(buffer, cursor.line);
            if cursor.column < width {
                cursor.column = cursor.column + 1;
            } else if cursor.line < count - 1 {
                cursor.line = cursor.line + 1;
                cursor.column = 0;
            }
        },
    }
}

/// What the event loop must do after a command: nothing, or write a file
/// and report the outcome with [`finish_save`].
pub enum Effect {
    /// Nothing more.
    Nothing,
    /// Write the text to the path.
    Write(SaveRequest),
}

/// The number of lines Page Up and Page Down move.
pub const PAGE_HEIGHT: usize = 20;

/// The state after typing `ch` at `p`: inserted when `p` is valid, and the
/// status message cleared.
pub open spec fn typed(m: EditorStateModel, p: Position, ch: char) -> EditorStateModel {
    let t = m.buffer.text;
    EditorStateModel {
        buffer: if valid_position(t, p) {
            BufferModel { text: t.insert(char_index(t, p), ch), dirty: true, ..m.buffer }
        } else {
            m.buffer
        },
        status_message: None,
        ..m
    }
}

/// The state after deleting the character at `p` (when there is one), with
/// the status message cleared.
pub open spec fn erased(m: EditorStateModel, p: Position) -> EditorStateModel {
    let t = m.buffer.text;
    EditorStateModel {
        buffer: if valid_position(t, p) && char_index(t, p) < t.len() {
            BufferModel { text: t.remove(char_index(t, p)), dirty: true, ..m.buffer }
        } else {
            m.buffer
        },
        status_message: None,
        ..m
    }
}

/// The cursor after typing `ch`: the next line's start for a line feed,
/// else one column right.
pub open spec fn cursor_after_typing(c: Position, ch: char) -> Position {
    if ch == '\n' {
        Position { line: (c.line + 1) as usize, column: 0 }
    } else {
        Position { line: c.line, column: (c.column + 1) as usize }
    }
}

/// Backspace: deletes the character before the cursor; at a line start,
/// joins the line to the previous one and goes to where that one ended.
pub open spec fn backspace(m: EditorStateModel, c: Position) -> (EditorStateModel, Position) {
    if c.column > 0 {
        let p = Position { line: c.line, column: (c.column - 1) as usize };
        (erased(m, p), p)
    } else if c.line > 0 {
        let p = Position {
            line: (c.line - 1) as usize,
            column: line_width(m.buffer.text, c.line - 1) as usize,
        };
        (erased(m, p), p)
    } else {
        (EditorStateModel { status_message: None, ..m }, c)
    }
}

/// The column `column` capped at the length of line `line`.
pub open spec fn capped_column(t: Seq<char>, line: int, column: usize) -> usize {
    if column <= length_or_zero(t, line) {
        column
    } else {
        length_or_zero(t, line) as usize
    }
}

/// The cursor a page up.
pub open spec fn paged_up(t: Seq<char>, c: Position) -> Position {
    let line: usize = if c.line >= PAGE_HEIGHT {
        (c.line - PAGE_HEIGHT) as usize
    } else {
        0
    };
    Position { line, column: capped_column(t, line as int, c.column) }
}

/// The cursor a page down.
pub open spec fn paged_down(t: Seq<char>, c: Position) -> Position {
    let line: usize = if c.line + PAGE_HEIGHT <= line_total(t) - 1 {
        (c.line + PAGE_HEIGHT) as usize
    } else {
        (line_total(t) - 1) as usize
    };
    Position { line, column: capped_column(t, line as int, c.column) }
}

/// The name of a command that is not implemented yet.
pub open spec fn command_label(cmd: EditorCommand) -> Seq<char> {
    match cmd {
        EditorCommand::SelectLeft => "SelectLeft"@,
        EditorCommand::SelectRight => "SelectRight"@,
        EditorCommand::SelectUp => "SelectUp"@,
        EditorCommand::SelectDown => "SelectDown"@,
        EditorCommand::SelectLineStart => "SelectLineStart"@,
        EditorCommand::SelectLineEnd => "SelectLineEnd"@,
        EditorCommand::SelectAll => "SelectAll"@,
        EditorCommand::Copy => "Copy"@,
        EditorCommand::Cut => "Cut"@,
        _ => "Paste"@,
    }
}

/// The status message for a command that is not implemented yet.
pub open spec fn unimplemented_message(cmd: EditorCommand) -> Seq<char> {
    "Command '"@ + command_label(cmd)
        + "' is not yet implemented. This feature is planned for a future release."@
}

/// The status message for a plugin command, which cannot run yet.
pub open spec fn plugin_unavailable_message(plugin: Seq<char>, command: Seq<char>) -> Seq<char> {
    "Plugin command '"@ + plugin + "."@ + command
        + "' cannot be executed: plugin system not yet initialized. Plugin support is planned for a future release."@
}

/// The status message when saving fails because there is no file path.
pub open spec fn no_path_error() -> Seq<char> {
    "Error: No file path associated with buffer"@
}

/// The state and cursor after a command other than `Save`.  The prompt
/// commands change nothing: this editor state keeps no prompt.
pub open spec fn command_step(m: EditorStateModel, c: Position, cmd: EditorCommand) -> (EditorStateModel, Position) {
    let t = m.buffer.text;
    match cmd {
        EditorCommand::InsertChar(ch) => (typed(m, c, ch), cursor_after_typing(c, ch)),
        EditorCommand::DeleteChar => backspace(m, c),
        EditorCommand::DeleteForward => (erased(m, c), c),
        EditorCommand::MoveCursor(d) => (m, moved_cursor(t, c, d)),
        EditorCommand::MoveToLineStart => (m, Position { line: c.line, column: 0 }),
        EditorCommand::MoveToLineEnd => (
            m,
            Position { line: c.line, column: length_or_zero(t, c.line as int) as usize },
        ),
        EditorCommand::PageUp => (m, paged_up(t, c)),
        EditorCommand::PageDown => (m, paged_down(t, c)),
        EditorCommand::InsertTab => (typed(m, c, '\t'), Position { line: c.line, column: (c.column + 1) as usize }),
        EditorCommand::Save => (m, c),
        EditorCommand::Quit => (quit_step(m).0, c),
        EditorCommand::ChangeMode(mode) => (EditorStateModel { mode, status_message: None, ..m }, c),
        EditorCommand::PluginCommand { plugin_name, command_name } => (
            EditorStateModel {
                status_message: Some(plugin_unavailable_message(plugin_name@, command_name@)),
                ..m
            },
            c,
        ),
        EditorCommand::PromptInsertChar(_) => (m, c),
        EditorCommand::PromptDeleteChar => (m, c),
        EditorCommand::AcceptPrompt => (m, c),
        EditorCommand::CancelPrompt => (m, c),
        _ => (EditorStateModel { status_message: Some(unimplemented_message(cmd)), ..m }, c),
    }
}

/// Whether running `cmd` from state `m` and cursor `c` gave state `m2`,
/// cursor `c2` and effect `r`: a save asks to write the buffer to its path
/// (or reports that there is none); any other command changes the state and
/// cursor as [`command_step`] says.
pub open spec fn command_done(
    m: EditorStateModel,
    c: Position,
    cmd: EditorCommand,
    m2: EditorStateModel,
    c2: Position,
    r: Effect,
) -> bool {
    if cmd is Save {
        &&& c2 == c
        &&& match m.buffer.file_path {
            Some(p) => r matches Effect::Write(req) && req.path@ == p && req.content@
                == m.buffer.text && m2 == m,
            None => r is Nothing && m2 == EditorStateModel {
                status_message: Some(no_path_error()),
                ..m
            },
        }
    } else {
        r is Nothing && (m2, c2) == command_step(m, c, cmd)
    }
}

/// Whether the cursor can move on after typing `ch`: down a line for a line
/// feed, one column right for any other character.
pub open spec fn char_fits(c: Position, ch: char) -> bool {
    if ch == '\n' {
        c.line < usize::MAX
    } else {
        c.column < usize::MAX
    }
}

/// Whether the cursor is far enough from the largest position for `cmd` to
/// move it: typing needs room for the next column or line, Page Down for a
/// page of lines; other commands need none.
pub open spec fn command_fits(cmd: EditorCommand, c: Position) -> bool {
    match cmd {
        EditorCommand::InsertChar(ch) => char_fits(c, ch),
        EditorCommand::InsertTab => c.column < usize::MAX,
        EditorCommand::PageDown => c.line + PAGE_HEIGHT <= usize::MAX,
        _ => true,
    }
}

/// Whether the cursor has room for what a key that no binding took does in
/// `mode`: only a character typed in Insert mode moves it.
pub open spec fn unbound_key_fits(mode: EditorMode, c: Position, event: KeyEvent) -> bool {
    match event.code {
        KeyCode::Char(ch) => mode == EditorMode::Insert && !control_or_alt_held(event.modifiers)
            ==> char_fits(c, ch),
        _ => true,
    }
}

fn type_char(state: &mut EditorState, cursor: &mut Position, ch: char)
    requires
        char_fits(*old(cursor), ch),
    ensures
        final(state)@ == typed(old(state)@, *old(cursor), ch),
        *final(cursor) == cursor_after_typing(*old(cursor), ch),
{
    state.handle_char_insert(ch, *cursor);
    if ch == '\n' {
        cursor.line = cursor.line + 1;
        cursor.column = 0;
    } else {
        cursor.column = cursor.column + 1;
    }
    state.clear_status_message();
}

fn erase_at(state: &mut EditorState, p: Position)
    ensures
        final(state)@ == erased(old(state)@, p),
{
    state.handle_char_delete(p);
    state.clear_status_message();
}

/// Runs a command on the state and the cursor (see [`command_done`]); a
/// mode change also restarts the key sequence in progress.
pub fn execute_command(
    state: &mut EditorState,
    cursor: &mut Position,
    command: EditorCommand,
    input_handler: &mut InputHandler,
) -> (r: Effect)
    requires
        command_fits(command, *old(cursor)),
    ensures
        command_done(old(state)@, *old(cursor), command, final(state)@, *final(cursor), r),
        final(input_handler)@.bindings == old(input_handler)@.bindings,
        final(input_handler)@.buffer == (if command is ChangeMode {
            Seq::empty()
        } else {
            old(input_handler)@.buffer
        }),
{
    let ghost cmd = command;
    match command {
        EditorCommand::InsertChar(ch) => {
            type_char(state, cursor, ch);
            Effect::Nothing
        },
        EditorCommand::DeleteChar => {
            if cursor.column > 0 {
                cursor.column = cursor.column - 1;
                erase_at(state, *cursor);
            } else if cursor.line > 0 {
                let width = line_char_width(state.buffer(), cursor.line - 1);
                cursor.line = cursor.line - 1;
                cursor.column = width;
                erase_at(state, *cursor);
            } else {
                state.clear_status_message();
            }
            Effect::Nothing
        },
        EditorCommand::DeleteForward => {
            state.buffer_mut().delete_forward(*cursor);
            state.clear_status_message();
            Effect::Nothing
        },
        EditorCommand::MoveCursor(direction) => {
            move_cursor(cursor, direction, state);
            Effect::Nothing
        },
        EditorCommand::MoveToLineStart => {
            *cursor = state.buffer().get_line_start(*cursor);
            Effect::Nothing
        },
        EditorCommand::MoveToLineEnd => {
            *cursor = state.buffer().get_line_end(*cursor);
            Effect::Nothing
        },
        EditorCommand::PageUp => {
            *cursor = state.buffer().page_up(*cursor, PAGE_HEIGHT);
            Effect::Nothing
        },
        EditorCommand::PageDown => {
            proof {
                lemma_line_total_positive(state@.buffer.text);
            }
            *cursor = state.buffer().page_down(*cursor, PAGE_HEIGHT);
            Effect::Nothing
        },
        EditorCommand::InsertTab => {
            state.handle_char_insert('\t', *cursor);
            cursor.column = cursor.column + 1;
            state.clear_status_message();
            Effect::Nothing
        },
        EditorCommand::Save => match state.save_request() {
            Ok(request) => Effect::Write(request),
            Err(_) => {
                state.set_status_message(String::from_str("Error: No file path associated with buffer"));
                Effect::Nothing
            },
        },
        EditorCommand::Quit => {
            state.request_quit();
            Effect::Nothing
        },
        EditorCommand::ChangeMode(mode) => {
            state.set_mode(mode);
            input_handler.on_mode_change();
            state.clear_status_message();
            Effect::Nothing
        },
        EditorCommand::PromptInsertChar(_) => Effect::Nothing,
        EditorCommand::PromptDeleteChar => Effect::Nothing,
        EditorCommand::AcceptPrompt => Effect::Nothing,
        EditorCommand::CancelPrompt => Effect::Nothing,
        EditorCommand::PluginCommand { plugin_name, command_name } => {
            let mut m = String::from_str("Plugin command '");
            m.append(plugin_name.as_str());
            m.append(".");
            m.append(command_name.as_str());
            m.append(
                "' cannot be executed: plugin system not yet initialized. Plugin support is planned for a future release.",
            );
            state.set_status_message(m);
            Effect::Nothing
        },
        _ => {
            let label = match command {
                EditorCommand::SelectLeft => "SelectLeft",
                EditorCommand::SelectRight => "SelectRight",
                EditorCommand::SelectUp => "SelectUp",
                EditorCommand::SelectDown => "SelectDown",
                EditorCommand::SelectLineStart => "SelectLineStart",
                EditorCommand::SelectLineEnd => "SelectLineEnd",
                EditorCommand::SelectAll => "SelectAll",
                EditorCommand::Copy => "Copy",
                EditorCommand::Cut => "Cut",
                _ => "Paste",
            };
            let mut m = String::from_str("Command '");
            m.append(label);
            m.append("' is not yet implemented. This feature is planned for a future release.");
            state.set_status_message(m);
            Effect::Nothing
        },
    }
}

/// The status message when writing the file failed.
pub open spec fn write_failed_message(path: Seq<char>, reason: Seq<char>) -> Seq<char> {
    "Error: Failed to save file: "@ + path + ": "@ + reason
}

/// Records how the write of a save went: on success the buffer is clean and
/// the status says it was saved; on failure the status gives the path and
/// the reason, and nothing else changes.
pub fn finish_save(state: &mut EditorState, request: &SaveRequest, outcome: Result<(), String>)
    ensures
        outcome is Ok ==> final(state)@ == (EditorStateModel {
            buffer: BufferModel { dirty: false, ..old(state)@.buffer },
            status_message: Some(crate::editor::saved_message()),
            ..old(state)@
        }),
        outcome matches Err(reason) ==> final(state)@ == (EditorStateModel {
            status_message: Some(write_failed_message(request.path@, reason@)),
            ..old(state)@
        }),
{
    match outcome {
        Ok(()) => state.complete_save(),
        Err(reason) => {
            let mut m = String::from_str("Error: Failed to save file: ");
            m.append(request.path.as_str());
            m.append(": ");
            m.append(reason.as_str());
            state.set_status_message(m);
        },
    }
}

/// The state and cursor after a key that no binding took: in Insert mode a
/// character typed without Ctrl or Alt is typed; otherwise nothing happens
/// (this editor state keeps no prompt to type into).
pub open spec fn unbound_key_step(m: EditorStateModel, c: Position, event: KeyEvent) -> (EditorStateModel, Position) {
    match event.code {
        KeyCode::Char(ch) => if m.mode == EditorMode::Insert && !control_or_alt_held(
            event.modifiers,
        ) {
            (typed(m, c, ch), cursor_after_typing(c, ch))
        } else {
            (m, c)
        },
        _ => (m, c),
    }
}

/// Handles a key that no binding took (see [`unbound_key_step`]).
pub fn handle_no_match(state: &mut EditorState, cursor: &mut Position, key_event: KeyEvent)
    requires
        unbound_key_fits(old(state)@.mode, *old(cursor), key_event),
    ensures
        (final(state)@, *final(cursor)) == unbound_key_step(old(state)@, *old(cursor), key_event),
{
    let ctrl_alt = KeyModifiers::control() | KeyModifiers::alt();
    assert(2u8 | 4u8 == 6u8) by (bit_vector);
    if state.mode() == EditorMode::Insert {
        if let KeyCode::Char(c) = key_event.code {
            if !key_event.modifiers.intersects(ctrl_alt) {
                type_char(state, cursor, c);
            }
        }
    }
}

/// Inside a line, Right moves the cursor one character right on the same
/// line (to the next character index), and Left from there comes back;
/// Left from a column past the line start moves one character left, and
/// Right from there comes back.
pub proof fn law_step_right_and_left_inside_a_line(t: Seq<char>, c: Position)
    requires
        c.line < line_total(t),
        t.len() <= usize::MAX,
    ensures
        c.column < line_width(t, c.line as int) ==> {
            &&& moved_cursor(t, c, Direction::Right) == Position {
                line: c.line,
                column: (c.column + 1) as usize,
            }
            &&& char_index(t, moved_cursor(t, c, Direction::Right)) == char_index(t, c) + 1
            &&& moved_cursor(t, moved_cursor(t, c, Direction::Right), Direction::Left) == c
        },
        0 < c.column <= line_width(t, c.line as int) ==> {
            &&& moved_cursor(t, c, Direction::Left) == Position {
                line: c.line,
                column: (c.column - 1) as usize,
            }
            &&& char_index(t, moved_cursor(t, c, Direction::Left)) == char_index(t, c) - 1
            &&& moved_cursor(t, moved_cursor(t, c, Direction::Left), Direction::Right) == c
        },
{
    lemma_line_bounds(t, c.line as int);
}

/// Every cursor move keeps a valid cursor valid: it never leaves the text
/// nor goes past the end of a line.
pub proof fn law_moves_keep_the_cursor_valid(t: Seq<char>, c: Position, d: Direction)
    requires
        valid_position(t, c),
        t.len() <= usize::MAX,
    ensures
        valid_position(t, moved_cursor(t, c, d)),
{
    lemma_line_bounds(t, c.line as int);
    if c.line > 0 {
        lemma_line_bounds(t, c.line - 1);
    }
    if c.line + 1 < line_total(t) {
        lemma_line_bounds(t, c.line + 1);
    }
}

/// Line `l` starts at index `l` or later, so there are at most as many
/// line breaks as characters.
proof fn lemma_line_count_bound(t: Seq<char>, l: int)
    requires
        0 <= l < line_total(t),
    ensures
        l <= line_start(t, l) <= t.len(),
    decreases l,
{
    lemma_line_bounds(t, l);
    crate::buffer::lines::lemma_line_starts_upto(t, t.len() as int);
    if l > 0 {
        lemma_line_count_bound(t, l - 1);
        assert(line_starts(t)[l - 1] < line_starts(t)[l]);
    }
}

/// Moving up and then down (or down and then up) comes back to the same
/// line, at a column no further right than where it started.
pub proof fn law_up_and_down_come_back(t: Seq<char>, c: Position)
    requires
        valid_position(t, c),
        t.len() <= usize::MAX,
    ensures
        c.line > 0 ==> {
            let u = moved_cursor(t, c, Direction::Up);
            let back = moved_cursor(t, u, Direction::Down);
            &&& u.line == c.line - 1
            &&& back.line == c.line
            &&& back.column <= c.column
        },
        c.line + 1 < line_total(t) ==> {
            let d = moved_cursor(t, c, Direction::Down);
            let back = moved_cursor(t, d, Direction::Up);
            &&& d.line == c.line + 1
            &&& back.line == c.line
            &&& back.column <= c.column
        },
{
    lemma_line_bounds(t, c.line as int);
    if c.line + 1 < line_total(t) {
        lemma_line_bounds(t, c.line + 1);
        assert(line_start(t, c.line + 1) <= t.len());
        assert(c.line + 1 <= usize::MAX) by {
            lemma_line_count_bound(t, c.line + 1);
        }
    }
}

/// Home goes to the character index where the cursor's line starts, End to
/// the last place on the line (Right from there leaves the line or stays);
/// Page Up and Page Down keep a valid cursor valid, and a page down that
/// does not reach the last line is undone by a page up.
pub proof fn law_line_ends_and_pages(m: EditorStateModel, c: Position)
    requires
        valid_position(m.buffer.text, c),
        m.buffer.text.len() <= usize::MAX,
        c.line + PAGE_HEIGHT <= usize::MAX,
    ensures
        ({
            let t = m.buffer.text;
            let home = command_step(m, c, EditorCommand::MoveToLineStart).1;
            let end = command_step(m, c, EditorCommand::MoveToLineEnd).1;
            let up = command_step(m, c, EditorCommand::PageUp).1;
            let down = command_step(m, c, EditorCommand::PageDown).1;
            &&& home.line == c.line
            &&& char_index(t, home) == line_start(t, c.line as int)
            &&& valid_position(t, end) && end.line == c.line && end.column >= c.column
            &&& moved_cursor(t, end, Direction::Right).line != c.line || moved_cursor(
                t,
                end,
                Direction::Right,
            ) == end
            &&& valid_position(t, up) && up.line <= c.line
            &&& valid_position(t, down) && down.line >= c.line
            &&& c.line + PAGE_HEIGHT < line_total(t) ==> paged_up(t, down).line == c.line
        }),
{
    let t = m.buffer.text;
    lemma_line_bounds(t, c.line as int);
    lemma_line_total_positive(t);
    let up_line: int = if c.line >= PAGE_HEIGHT {
        c.line - PAGE_HEIGHT
    } else {
        0
    };
    lemma_line_bounds(t, up_line);
    let down_line: int = if c.line + PAGE_HEIGHT <= line_total(t) - 1 {
        c.line + PAGE_HEIGHT
    } else {
        line_total(t) - 1
    };
    lemma_line_bounds(t, down_line);
}

/// Enter at a valid cursor puts a line feed at the cursor's character index
/// and moves the cursor to the start of the next line; Backspace inside a
/// line removes the character before the cursor and moves the cursor one
/// column left.
pub proof fn law_enter_and_backspace(m: EditorStateModel, c: Position)
    requires
        valid_position(m.buffer.text, c),
        m.buffer.text.len() < usize::MAX,
        c.line < usize::MAX,
    ensures
        ({
            let t = m.buffer.text;
            let (m2, c2) = command_step(m, c, EditorCommand::InsertChar('\n'));
            &&& m2.buffer.text == t.insert(char_index(t, c), '\n')
            &&& c2 == Position { line: (c.line + 1) as usize, column: 0 }
        }),
        c.column > 0 ==> {
            let t = m.buffer.text;
            let (m2, c2) = command_step(m, c, EditorCommand::DeleteChar);
            &&& m2.buffer.text == t.remove(char_index(t, c) - 1)
            &&& m2.buffer.text.len() == t.len() - 1
            &&& c2 == Position { line: c.line, column: (c.column - 1) as usize }
        },
{
    let t = m.buffer.text;
    lemma_line_bounds(t, c.line as int);
    crate::buffer::lemma_valid_index(t, c);
}

/// Typing a character other than a line feed, or a tab, at a valid cursor
/// puts it at the cursor's character index and leaves the cursor on the
/// same line, addressing the index just after it.
pub proof fn law_typing_moves_past_the_character(m: EditorStateModel, c: Position, ch: char)
    requires
        valid_position(m.buffer.text, c),
        m.buffer.text.len() < usize::MAX,
        ch != '\n',
    ensures
        ({
            let t = m.buffer.text;
            let (m2, c2) = command_step(m, c, EditorCommand::InsertChar(ch));
            &&& m2.buffer.text == t.insert(char_index(t, c), ch)
            &&& c2.line == c.line
            &&& char_index(m2.buffer.text, c2) == char_index(t, c) + 1
        }),
        ({
            let t = m.buffer.text;
            let (m2, c2) = command_step(m, c, EditorCommand::InsertTab);
            &&& m2.buffer.text == t.insert(char_index(t, c), '\t')
            &&& c2.line == c.line
            &&& char_index(m2.buffer.text, c2) == char_index(t, c) + 1
        }),
{
    let t = m.buffer.text;
    lemma_line_bounds(t, c.line as int);
    law_insert_then_delete_restores(t, c, ch);
    law_insert_then_delete_restores(t, c, '\t');
}

/// Forward delete at a valid cursor with a character after it removes that
/// character, whether it is inside the line or the line's break (which
/// joins the next line on), and leaves the cursor where it was.
pub proof fn law_delete_forward_removes_the_next_character(m: EditorStateModel, c: Position)
    requires
        valid_position(m.buffer.text, c),
        char_index(m.buffer.text, c) < m.buffer.text.len(),
    ensures
        ({
            let t = m.buffer.text;
            let (m2, c2) = command_step(m, c, EditorCommand::DeleteForward);
            &&& m2.buffer.text == t.remove(char_index(t, c))
            &&& m2.buffer.text.len() == t.len() - 1
            &&& m2.buffer.dirty
            &&& c2 == c
        }),
{
    crate::buffer::lemma_valid_index(m.buffer.text, c);
}

/// Two commands that are the same command have the same outcome.
pub proof fn lemma_same_command_same_step(m: EditorStateModel, c: Position, a: EditorCommand, b: EditorCommand)
    requires
        same_command(a, b),
    ensures
        command_step(m, c, a) == command_step(m, c, b),
        a is Save <==> b is Save,
        a is ChangeMode <==> b is ChangeMode,
        command_fits(a, c) == command_fits(b, c),
{
}

/// Handles a key press: the input handler adds it to the key sequence in
/// progress; a binding that takes the sequence runs its command (see
/// [`execute_command`]), a sequence that begins a binding waits for more
/// keys, and any other key is handled as unbound (see [`handle_no_match`]).
pub fn process_key_event(
    state: &mut EditorState,
    cursor: &mut Position,
    key_event: KeyEvent,
    input_handler: &mut InputHandler,
) -> (r: Effect)
    requires
        ({
            let bs = old(input_handler)@.bindings;
            let mode = old(state)@.mode;
            let typed_keys = old(input_handler)@.buffer.push(
                crate::input::keybinding::KeyPattern {
                    code: key_event.code,
                    modifiers: key_event.modifiers,
                },
            );
            &&& forall|i: int|
                crate::input::registry::first_applicable(bs, mode, typed_keys, i) ==> command_fits(
                    (#[trigger] bs[i]).spec_command(),
                    *old(cursor),
                )
            &&& (forall|i: int| !crate::input::registry::first_applicable(bs, mode, typed_keys, i))
                && !crate::input::input_handler::some_partial(old(input_handler)@, mode, typed_keys)
                ==> unbound_key_fits(mode, *old(cursor), key_event)
        }),
    ensures
        final(input_handler)@.bindings == old(input_handler)@.bindings,
        ({
            let bs = old(input_handler)@.bindings;
            let mode = old(state)@.mode;
            let typed_keys = old(input_handler)@.buffer.push(
                crate::input::keybinding::KeyPattern {
                    code: key_event.code,
                    modifiers: key_event.modifiers,
                },
            );
            if exists|i: int| crate::input::registry::first_applicable(bs, mode, typed_keys, i) {
                let i = choose|i: int| crate::input::registry::first_applicable(bs, mode, typed_keys, i);
                &&& command_done(
                    old(state)@,
                    *old(cursor),
                    bs[i].spec_command(),
                    final(state)@,
                    *final(cursor),
                    r,
                )
                &&& final(input_handler)@.buffer.len() == 0
                &&& forall|j: int|
                    0 <= j < bs.len() && crate::input::registry::binding_applies(
                        #[trigger] bs[j],
                        mode,
                        typed_keys,
                    ) ==> crate::input::keybinding::priority_level(bs[j].spec_priority())
                        <= crate::input::keybinding::priority_level(bs[i].spec_priority())
            } else if crate::input::input_handler::some_partial(old(input_handler)@, mode, typed_keys) {
                &&& r is Nothing
                &&& final(state)@ == old(state)@
                &&& *final(cursor) == *old(cursor)
                &&& final(input_handler)@.buffer == typed_keys
            } else {
                &&& r is Nothing
                &&& (final(state)@, *final(cursor)) == unbound_key_step(old(state)@, *old(cursor), key_event)
                &&& final(input_handler)@.buffer.len() == 0
            }
        }),
{
    let ghost bs = input_handler@.bindings;
    let ghost typed_keys = input_handler@.buffer.push(
        crate::input::keybinding::KeyPattern { code: key_event.code, modifiers: key_event.modifiers },
    );
    let mode = state.mode();
    match input_handler.process_key_event(key_event, mode) {
        MatchResult::Matched(command) => {
            proof {
                let i = choose|i: int|
                    {
                        &&& crate::input::registry::first_applicable(bs, mode, typed_keys, i)
                        &&& same_command(command, (#[trigger] bs[i]).spec_command())
                        &&& forall|j: int|
                            0 <= j < bs.len() && crate::input::registry::binding_applies(
                                #[trigger] bs[j],
                                mode,
                                typed_keys,
                            ) ==> crate::input::keybinding::priority_level(bs[j].spec_priority())
                                <= crate::input::keybinding::priority_level(bs[i].spec_priority())
                    };
                let j = choose|j: int| crate::input::registry::first_applicable(bs, mode, typed_keys, j);
                if i < j {
                    assert(!crate::input::registry::binding_applies(bs[i], mode, typed_keys));
                } else if j < i {
                    assert(!crate::input::registry::binding_applies(bs[j], mode, typed_keys));
                }
                assert(i == j);
                lemma_same_command_same_step(state@, *cursor, command, bs[i].spec_command());
            }
            execute_command(state, cursor, command, input_handler)
        },
        MatchResult::Partial => Effect::Nothing,
        MatchResult::NoMatch => {
            handle_no_match(state, cursor, key_event);
            Effect::Nothing
        },
    }
}

} // verus!
