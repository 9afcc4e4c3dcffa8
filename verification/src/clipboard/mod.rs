//! Clipboard access: the provider interface, its errors, the in-memory
//! fallback clipboard, and the classification of system clipboard failures.
mod error;
mod internal;

pub use error::{
    ClipboardError, ClipboardProvider, get_error_from_message, init_error_from_message,
    set_error_from_message,
};
pub use internal::InternalClipboard;
