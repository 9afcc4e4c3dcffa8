//! The API that plugins use to extend the editor: currently key bindings.
//!
//! Plugin commands are namespaced as `plugin_name.command_name`; a binding
//! registered by a plugin gets the plugin priority, above the editor's
//! defaults and below the user's own configuration.
pub mod input;

pub use input::{BindingError, PluginBinding, PluginBindingBuilder, PluginInputExtension};
