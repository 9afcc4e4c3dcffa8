//! Editor state: the buffer, the editing mode, the status message and the
//! quit flag.
mod editor_mode;
mod editor_state;

pub use editor_mode::{EditorMode, ParseModeError, editor_mode_of_name, editor_mode_of_text, mode_label};
pub use editor_state::{
    EditorState, EditorStateModel, SaveError, SaveRequest, quit_step, saved_message, unsaved_warning,
    law_second_quit_request_quits,
};
