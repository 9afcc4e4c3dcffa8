//! A terminal text editor's core: text buffer, editing modes, key bindings
//! and their parsers, with the decisions of the editor's event loop.
use vstd::prelude::*;

pub mod textops;
pub mod plugin_api;
pub mod buffer;
pub mod clipboard;
pub mod editor;
pub mod input;
pub mod event_loop;
pub mod file_io;
pub mod ui;

verus! {
} // verus!
