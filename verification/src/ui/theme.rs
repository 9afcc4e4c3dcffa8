//! Color themes.
use vstd::prelude::*;

verus! {

/// A terminal color.
#[derive(Debug, Clone, Copy, PartialEq, Eq, Hash, Structural)]
pub enum Color {
    /// The terminal's default.
    Reset,
    /// Black.
    Black,
    /// Red.
    Red,
    /// Green.
    Green,
    /// Yellow.
    Yellow,
    /// Blue.
    Blue,
    /// Magenta.
    Magenta,
    /// Cyan.
    Cyan,
    /// Gray.
    Gray,
    /// Dark gray.
    DarkGray,
    /// Light red.
    LightRed,
    /// Light green.
    LightGreen,
    /// Light yellow.
    LightYellow,
    /// Light blue.
    LightBlue,
    /// Light magenta.
    LightMagenta,
    /// Light cyan.
    LightCyan,
    /// White.
    White,
    /// A 24-bit color: red, green, blue.
    Rgb(u8, u8, u8),
    /// A color of the terminal's 256-color palette.
    Indexed(u8),
}

/// The colors the editor draws with.
#[derive(Debug, Clone, PartialEq, Eq, Structural)]
pub struct Theme {
    /// Background of the selection in the focused view.
    pub selection: Color,
    /// Background of the selection in an unfocused view.
    pub selection_inactive: Color,
    /// Status bar background.
    pub status_bar_bg: Color,
    /// Status bar text.
    pub status_bar_fg: Color,
    /// Error messages.
    pub error: Color,
    /// Warning messages.
    pub warning: Color,
    /// Informational messages.
    pub info: Color,
    /// Success messages.
    pub success: Color,
    /// The prompt's text.
    pub prompt_fg: Color,
    /// Text.
    pub text_fg: Color,
    /// Text background.
    pub text_bg: Color,
}

/// The dark theme.
pub open spec fn dark_theme() -> Theme {
    Theme {
        selection: Color::Rgb(68, 71, 90),
        selection_inactive: Color::Rgb(59, 59, 59),
        status_bar_bg: Color::DarkGray,
        status_bar_fg: Color::White,
        error: Color::Red,
        warning: Color::Red,
        info: Color::Cyan,
        success: Color::Green,
        prompt_fg: Color::Cyan,
        text_fg: Color::Reset,
        text_bg: Color::Reset,
    }
}

/// The light theme.
pub open spec fn light_theme() -> Theme {
    Theme {
        selection: Color::Rgb(173, 214, 255),
        selection_inactive: Color::Rgb(211, 211, 211),
        status_bar_bg: Color::Gray,
        status_bar_fg: Color::Black,
        error: Color::Red,
        warning: Color::Red,
        info: Color::Blue,
        success: Color::Green,
        prompt_fg: Color::Blue,
        text_fg: Color::Reset,
        text_bg: Color::Reset,
    }
}

impl Theme {
    /// The dark theme: muted blue-gray selection, dark gray status bar,
    /// red errors and warnings, cyan information, green success, the
    /// terminal's own text colors.
    pub fn dark() -> (r: Self)
        ensures
            r == dark_theme(),
    {
        Theme {
            selection: Color::Rgb(68, 71, 90),
            selection_inactive: Color::Rgb(59, 59, 59),
            status_bar_bg: Color::DarkGray,
            status_bar_fg: Color::White,
            error: Color::Red,
            warning: Color::Red,
            info: Color::Cyan,
            success: Color::Green,
            prompt_fg: Color::Cyan,
            text_fg: Color::Reset,
            text_bg: Color::Reset,
        }
    }

    /// The light theme: light blue selection, gray status bar, blue
    /// information and prompt.
    pub fn light() -> (r: Self)
        ensures
            r == light_theme(),
    {
        Theme {
            selection: Color::Rgb(173, 214, 255),
            selection_inactive: Color::Rgb(211, 211, 211),
            status_bar_bg: Color::Gray,
            status_bar_fg: Color::Black,
            error: Color::Red,
            warning: Color::Red,
            info: Color::Blue,
            success: Color::Green,
            prompt_fg: Color::Blue,
            text_fg: Color::Reset,
            text_bg: Color::Reset,
        }
    }

    /// The selection background for a focused (`is_active`) or unfocused
    /// view.
    pub fn selection_color(&self, is_active: bool) -> (r: Color)
        ensures
            r == (if is_active {
                self.selection
            } else {
                self.selection_inactive
            }),
    {
        if is_active {
            self.selection
        } else {
            self.selection_inactive
        }
    }
}

impl Default for Theme {
    /// The dark theme.
    fn default() -> (r: Self)
        ensures
            r == dark_theme(),
    {
        Theme::dark()
    }
}

} // verus!
