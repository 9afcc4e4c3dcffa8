//! The editor's central state.
use vstd::prelude::*;
use crate::buffer::{Buffer, BufferModel, Position};
use super::editor_mode::EditorMode;

verus! {

/// The editor's state: buffer, mode, status message and quit flag.
#[derive(Debug)]
pub struct EditorState {
    buffer: Buffer,
    mode: EditorMode,
    status_message: Option<String>,
    should_quit: bool,
}

/// What the editor state holds.
pub struct EditorStateModel {
    /// The buffer.
    pub buffer: BufferModel,
    /// The editing mode.
    pub mode: EditorMode,
    /// The status message, if any.
    pub status_message: Option<Seq<char>>,
    /// Whether the editor should quit.
    pub should_quit: bool,
}

impl View for EditorState {
    type V = EditorStateModel;

    closed spec fn view(&self) -> EditorStateModel {
        EditorStateModel {
            buffer: self.buffer@,
            mode: self.mode,
            status_message: match self.status_message {
                Some(m) => Some(m@),
                None => None,
            },
            should_quit: self.should_quit,
        }
    }
}

/// The warning shown on the first quit request with unsaved changes.
pub open spec fn unsaved_warning() -> Seq<char> {
    "Warning: Unsaved changes! Press Ctrl+Q again to force quit."@
}

/// The status message after a save.
pub open spec fn saved_message() -> Seq<char> {
    "Saved successfully"@
}

/// The state after a quit request, and the request's answer.  A clean
/// buffer quits at once; with unsaved changes, the first request only warns
/// (when no status message is shown) and a request made while a message is
/// shown quits.
pub open spec fn quit_step(m: EditorStateModel) -> (EditorStateModel, bool) {
    if m.buffer.dirty && m.status_message is None {
        (EditorStateModel { status_message: Some(unsaved_warning()), ..m }, false)
    } else {
        (EditorStateModel { should_quit: true, ..m }, true)
    }
}

/// What a save writes: the file path and the text.
#[derive(Debug)]
pub struct SaveRequest {
    /// The path to write.
    pub path: String,
    /// The text to write.
    pub content: String,
}

/// Why a save did not happen.
#[derive(Debug, Clone, PartialEq, Eq)]
pub enum SaveError {
    /// The buffer has no file path.
    NoFilePath,
    /// Writing the file failed: the path and the reason.
    WriteFailed { path: String, reason: String },
}

impl SaveError {
    /// The human-readable message of the error.
    pub fn to_string(&self) -> (r: String)
        ensures
            self is NoFilePath ==> r@ == "No file path associated with buffer"@,
            self matches SaveError::WriteFailed { path, reason } ==> r@ == "Failed to save file: "@
                + path@ + ": "@ + reason@,
    {
        match self {
            SaveError::NoFilePath => String::from_str("No file path associated with buffer"),
            SaveError::WriteFailed { path, reason } => {
                let mut r = String::from_str("Failed to save file: ");
                r.append(path.as_str());
                r.append(": ");
                r.append(reason.as_str());
                r
            },
        }
    }
}

impl EditorState {
    /// An empty buffer in Insert mode, no message, not quitting.
    pub fn new() -> (r: Self)
        ensures
            r@.buffer.text == Seq::<char>::empty(),
            r@.buffer.file_path is None,
            !r@.buffer.dirty,
            r@.buffer.selection is None,
            r@.mode == EditorMode::Insert,
            r@.status_message is None,
            !r@.should_quit,
    {
        EditorState {
            buffer: Buffer::new(),
            mode: EditorMode::Insert,
            status_message: None,
            should_quit: false,
        }
    }

    /// The state for a file: its content when the file exists (`None` for a
    /// new file, created on save), the path associated, Insert mode.
    pub fn from_file_content(path: String, content: Option<&str>) -> (r: Self)
        ensures
            r@.buffer.text == (match content {
                Some(c) => c@,
                None => Seq::<char>::empty(),
            }),
            r@.buffer.file_path == Some(path@),
            !r@.buffer.dirty,
            r@.buffer.selection is None,
            r@.mode == EditorMode::Insert,
            r@.status_message is None,
            !r@.should_quit,
    {
        let mut buffer = match content {
            Some(c) => Buffer::from_str(c),
            None => Buffer::new(),
        };
        buffer.set_file_path(path);
        EditorState { buffer, mode: EditorMode::Insert, status_message: None, should_quit: false }
    }

    /// The buffer.
    pub fn buffer(&self) -> (r: &Buffer)
        ensures
            r@ == self@.buffer,
    {
        &self.buffer
    }

    /// The buffer, for changing it.
    pub fn buffer_mut(&mut self) -> (r: &mut Buffer)
        ensures
            (*r)@ == old(self)@.buffer,
            final(self)@.buffer == (*final(r))@,
            final(self)@.mode == old(self)@.mode,
            final(self)@.status_message == old(self)@.status_message,
            final(self)@.should_quit == old(self)@.should_quit,
    {
        &mut self.buffer
    }

    /// The editing mode.
    pub fn mode(&self) -> (r: EditorMode)
        ensures
            r == self@.mode,
    {
        self.mode
    }

    /// Sets the editing mode.
    pub fn set_mode(&mut self, mode: EditorMode)
        ensures
            final(self)@ == (EditorStateModel { mode, ..old(self)@ }),
    {
        self.mode = mode;
    }

    /// The status message, if any.
    pub fn status_message(&self) -> (r: Option<&str>)
        ensures
            match self@.status_message {
                Some(m) => r matches Some(s) && s@ == m,
                None => r is None,
            },
    {
        match &self.status_message {
            Some(m) => Some(m.as_str()),
            None => None,
        }
    }

    /// Shows a status message.
    pub fn set_status_message(&mut self, message: String)
        ensures
            final(self)@ == (EditorStateModel { status_message: Some(message@), ..old(self)@ }),
    {
        self.status_message = Some(message);
    }

    /// Clears the status message.
    pub fn clear_status_message(&mut self)
        ensures
            final(self)@ == (EditorStateModel { status_message: None, ..old(self)@ }),
    {
        self.status_message = None;
    }

    /// Whether the editor should quit.
    pub fn should_quit(&self) -> (r: bool)
        ensures
            r == self@.should_quit,
    {
        self.should_quit
    }

    /// Asks to quit.  With unsaved changes and no message shown, warns and
    /// answers `false`; otherwise sets the quit flag and answers `true`.
    pub fn request_quit(&mut self) -> (r: bool)
        ensures
            (final(self)@, r) == quit_step(old(self)@),
    {
        if self.buffer.is_dirty() {
            if self.status_message.is_some() {
                self.should_quit = true;
                true
            } else {
                self.set_status_message(
                    String::from_str(
                        "Warning: Unsaved changes! Press Ctrl+Q again to force quit.",
                    ),
                );
                false
            }
        } else {
            self.should_quit = true;
            true
        }
    }

    /// Sets the quit flag regardless of unsaved changes.
    pub fn force_quit(&mut self)
        ensures
            final(self)@ == (EditorStateModel { should_quit: true, ..old(self)@ }),
    {
        self.should_quit = true;
    }

    /// Inserts a character into the buffer (see `Buffer::insert_char`).
    pub fn handle_char_insert(&mut self, ch: char, pos: Position) -> (r: bool)
        ensures
            r == crate::buffer::valid_position(old(self)@.buffer.text, pos),
            r ==> final(self)@.buffer.text == old(self)@.buffer.text.insert(
                crate::buffer::char_index(old(self)@.buffer.text, pos),
                ch,
            ) && final(self)@.buffer.dirty,
            !r ==> final(self)@.buffer == old(self)@.buffer,
            final(self)@.buffer.file_path == old(self)@.buffer.file_path,
            final(self)@.buffer.selection == old(self)@.buffer.selection,
            final(self)@.mode == old(self)@.mode,
            final(self)@.status_message == old(self)@.status_message,
            final(self)@.should_quit == old(self)@.should_quit,
    {
        self.buffer.insert_char(ch, pos)
    }

    /// Deletes the character at `pos` (see `Buffer::delete_char_at`).
    pub fn handle_char_delete(&mut self, pos: Position) -> (r: bool)
        ensures
            r == (crate::buffer::valid_position(old(self)@.buffer.text, pos)
                && crate::buffer::char_index(old(self)@.buffer.text, pos) < old(
                self,
            )@.buffer.text.len()),
            r ==> final(self)@.buffer.text == old(self)@.buffer.text.remove(
                crate::buffer::char_index(old(self)@.buffer.text, pos),
            ) && final(self)@.buffer.dirty,
            !r ==> final(self)@.buffer == old(self)@.buffer,
            final(self)@.buffer.file_path == old(self)@.buffer.file_path,
            final(self)@.buffer.selection == old(self)@.buffer.selection,
            final(self)@.mode == old(self)@.mode,
            final(self)@.status_message == old(self)@.status_message,
            final(self)@.should_quit == old(self)@.should_quit,
    {
        self.buffer.delete_char_at(pos)
    }

    /// Associates a file path with the buffer.
    pub fn set_file_path(&mut self, path: &str)
        ensures
            final(self)@.buffer.file_path == Some(path@),
            final(self)@.buffer.text == old(self)@.buffer.text,
            final(self)@.buffer.dirty == old(self)@.buffer.dirty,
            final(self)@.buffer.selection == old(self)@.buffer.selection,
            final(self)@.mode == old(self)@.mode,
            final(self)@.status_message == old(self)@.status_message,
            final(self)@.should_quit == old(self)@.should_quit,
    {
        self.buffer.set_file_path(String::from_str(path));
    }

    /// What saving writes: the buffer's path and text; `NoFilePath` when the
    /// buffer has no path.  Nothing changes until the write is reported done
    /// with [`EditorState::complete_save`].
    pub fn save_request(&self) -> (r: Result<SaveRequest, SaveError>)
        ensures
            match self@.buffer.file_path {
                Some(p) => r matches Ok(req) && req.path@ == p && req.content@
                    == self@.buffer.text,
                None => r == Err::<SaveRequest, SaveError>(SaveError::NoFilePath),
            },
    {
        match self.buffer.file_path() {
            Some(p) => Ok(SaveRequest { path: p.clone(), content: self.buffer.content() }),
            None => Err(SaveError::NoFilePath),
        }
    }

    /// Records a completed save: the buffer is clean and the status says so.
    pub fn complete_save(&mut self)
        ensures
            final(self)@.buffer.text == old(self)@.buffer.text,
            final(self)@.buffer.file_path == old(self)@.buffer.file_path,
            final(self)@.buffer.selection == old(self)@.buffer.selection,
            !final(self)@.buffer.dirty,
            final(self)@.status_message == Some(saved_message()),
            final(self)@.mode == old(self)@.mode,
            final(self)@.should_quit == old(self)@.should_quit,
    {
        self.buffer.clear_dirty();
        self.set_status_message(String::from_str("Saved successfully"));
    }
}

impl Default for EditorState {
    /// Same as [`EditorState::new`].
    fn default() -> (r: Self)
        ensures
            r@.buffer.text == Seq::<char>::empty(),
            r@.buffer.file_path is None,
            !r@.buffer.dirty,
            r@.mode == EditorMode::Insert,
            r@.status_message is None,
            !r@.should_quit,
    {
        Self::new()
    }
}

/// Quitting with unsaved changes takes two requests: the first (with no
/// message shown) warns and does not quit, the one after it quits.  Any
/// request that answers `true` sets the quit flag, and a clean buffer quits
/// at the first request.
pub proof fn law_second_quit_request_quits(m: EditorStateModel)
    ensures
        quit_step(quit_step(m).0).1,
        quit_step(quit_step(m).0).0.should_quit,
        quit_step(m).1 ==> quit_step(m).0.should_quit,
        !m.buffer.dirty ==> quit_step(m).1,
        m.buffer.dirty && m.status_message is None ==> !quit_step(m).1
            && quit_step(m).0.status_message == Some(unsaved_warning()),
{
}

} // verus!
