//! Keyboard input: keys, key bindings and their registry, editor commands
//! and their parsers, user configuration of bindings.
pub mod direction;
pub mod keys;

pub use direction::Direction;
pub mod command;

pub use command::{CommandParseError, EditorCommand};
pub mod keybinding;

pub use keybinding::ParseError;
pub mod priority_search;
pub mod debug_text;
pub mod registry;
pub mod bindings;
pub mod handler;

pub use handler::handle_key_event;
pub mod input_handler;
pub mod config;
