//! What the screen shows: the color theme, and the layout decisions of the
//! renderer (scrolling, the cursor's cell, the status bar, the lines in
//! view, when to redraw).
pub mod theme;
pub mod view;

pub use theme::{Color, Theme};
