//! Editor commands and their names in configuration files.
//!
//! Built-in commands have dotted and underscored names (`file.save`,
//! `move_up`, `up`); any other name with a dot is a plugin command
//! `plugin_name.command_name`.  Names are matched case-insensitively after
//! surrounding whitespace is removed.
use vstd::prelude::*;
use crate::editor::EditorMode;
use crate::textops::{
    char_len, contains_char, split_by, split_on, str_eq, to_lowercase, trim, trimmed,
    lowercase, views_of,
};
use super::direction::Direction;

verus! {

/// A command the editor can execute.
#[derive(Debug, Clone, PartialEq, Eq)]
pub enum EditorCommand {
    /// Insert a character at the cursor.
    InsertChar(char),
    /// Delete the character before the cursor.
    DeleteChar,
    /// Delete the character at the cursor.
    DeleteForward,
    /// Move the cursor.
    MoveCursor(Direction),
    /// Move to the start of the line.
    MoveToLineStart,
    /// Move to the end of the line.
    MoveToLineEnd,
    /// Move up one page.
    PageUp,
    /// Move down one page.
    PageDown,
    /// Insert a tab character.
    InsertTab,
    /// Save the buffer.
    Save,
    /// Quit the editor.
    Quit,
    /// Switch mode.
    ChangeMode(EditorMode),
    /// Insert a character into the prompt.
    PromptInsertChar(char),
    /// Delete the last character of the prompt.
    PromptDeleteChar,
    /// Accept the prompt's input.
    AcceptPrompt,
    /// Cancel the prompt.
    CancelPrompt,
    /// Extend the selection left.
    SelectLeft,
    /// Extend the selection right.
    SelectRight,
    /// Extend the selection up.
    SelectUp,
    /// Extend the selection down.
    SelectDown,
    /// Extend the selection to the line start.
    SelectLineStart,
    /// Extend the selection to the line end.
    SelectLineEnd,
    /// Select the whole buffer.
    SelectAll,
    /// Copy the selection.
    Copy,
    /// Cut the selection.
    Cut,
    /// Paste the clipboard.
    Paste,
    /// A command provided by a plugin.
    PluginCommand { plugin_name: String, command_name: String },
}

/// Why a command name does not parse.
#[derive(Debug, Clone, PartialEq, Eq)]
pub enum CommandParseError {
    /// The name is empty or blank.
    EmptyCommand,
    /// No built-in command has this name and it holds no dot.
    UnknownCommand(String),
    /// A parameter of a command is invalid.
    InvalidParameter { command: String, param: String, reason: String },
    /// A dotted name that is not `plugin_name.command_name`.
    InvalidPluginCommandFormat(String),
}

/// The message of a command parse error.
pub open spec fn command_error_message(e: CommandParseError) -> Seq<char> {
    match e {
        CommandParseError::EmptyCommand => "empty command string"@,
        CommandParseError::UnknownCommand(c) => "unknown command '"@ + c@
            + "': check available commands in the documentation"@,
        CommandParseError::InvalidParameter { command, param, reason } =>
            "invalid parameter '"@ + param@ + "' for command '"@ + command@ + "': "@ + reason@,
        CommandParseError::InvalidPluginCommandFormat(c) => "invalid plugin command format '"@
            + c@ + "': expected 'plugin_name.command_name'"@,
    }
}

impl CommandParseError {
    /// The human-readable message of the error.
    pub fn to_string(&self) -> (r: String)
        ensures
            r@ == command_error_message(*self),
    {
        match self {
            CommandParseError::EmptyCommand => String::from_str("empty command string"),
            CommandParseError::UnknownCommand(c) => {
                let mut r = String::from_str("unknown command '");
                r.append(c.as_str());
                r.append("': check available commands in the documentation");
                r
            },
            CommandParseError::InvalidParameter { command, param, reason } => {
                let mut r = String::from_str("invalid parameter '");
                r.append(param.as_str());
                r.append("' for command '");
                r.append(command.as_str());
                r.append("': ");
                r.append(reason.as_str());
                r
            },
            CommandParseError::InvalidPluginCommandFormat(c) => {
                let mut r = String::from_str("invalid plugin command format '");
                r.append(c.as_str());
                r.append("': expected 'plugin_name.command_name'");
                r
            },
        }
    }
}

/// The built-in commands of the editing table named by `n` (lowercase).
pub open spec fn builtin_editing(n: Seq<char>) -> Option<EditorCommand> {
    if n == "file.save"@ || n == "save"@ {
        Some(EditorCommand::Save)
    } else if n == "quit"@ || n == "exit"@ {
        Some(EditorCommand::Quit)
    } else if n == "delete_char"@ || n == "delete"@ || n == "backspace"@ {
        Some(EditorCommand::DeleteChar)
    } else if n == "move.up"@ || n == "move_up"@ || n == "up"@ {
        Some(EditorCommand::MoveCursor(Direction::Up))
    } else if n == "move.down"@ || n == "move_down"@ || n == "down"@ {
        Some(EditorCommand::MoveCursor(Direction::Down))
    } else if n == "move.left"@ || n == "move_left"@ || n == "left"@ {
        Some(EditorCommand::MoveCursor(Direction::Left))
    } else if n == "move.right"@ || n == "move_right"@ || n == "right"@ {
        Some(EditorCommand::MoveCursor(Direction::Right))
    } else {
        None
    }
}

fn lookup_editing(n: &str) -> (r: Option<EditorCommand>)
    ensures
        r == builtin_editing(n@),
{
    if str_eq(n, "file.save") || str_eq(n, "save") {
        Some(EditorCommand::Save)
    } else if str_eq(n, "quit") || str_eq(n, "exit") {
        Some(EditorCommand::Quit)
    } else if str_eq(n, "delete_char") || str_eq(n, "delete") || str_eq(n, "backspace") {
        Some(EditorCommand::DeleteChar)
    } else if str_eq(n, "move.up") || str_eq(n, "move_up") || str_eq(n, "up") {
        Some(EditorCommand::MoveCursor(Direction::Up))
    } else if str_eq(n, "move.down") || str_eq(n, "move_down") || str_eq(n, "down") {
        Some(EditorCommand::MoveCursor(Direction::Down))
    } else if str_eq(n, "move.left") || str_eq(n, "move_left") || str_eq(n, "left") {
        Some(EditorCommand::MoveCursor(Direction::Left))
    } else if str_eq(n, "move.right") || str_eq(n, "move_right") || str_eq(n, "right") {
        Some(EditorCommand::MoveCursor(Direction::Right))
    } else {
        None
    }
}

/// The built-in commands of the mode and prompt table named by `n` (lowercase).
pub open spec fn builtin_modal(n: Seq<char>) -> Option<EditorCommand> {
    if n == "mode.insert"@ || n == "insert_mode"@ || n == "insert"@ {
        Some(EditorCommand::ChangeMode(EditorMode::Insert))
    } else if n == "mode.normal"@ || n == "normal_mode"@ || n == "normal"@ {
        Some(EditorCommand::ChangeMode(EditorMode::Normal))
    } else if n == "mode.prompt"@ || n == "prompt_mode"@ {
        Some(EditorCommand::ChangeMode(EditorMode::Prompt))
    } else if n == "prompt.accept"@ || n == "accept_prompt"@ || n == "accept"@ {
        Some(EditorCommand::AcceptPrompt)
    } else if n == "prompt.cancel"@ || n == "cancel_prompt"@ || n == "cancel"@ {
        Some(EditorCommand::CancelPrompt)
    } else if n == "prompt.delete_char"@ || n == "prompt_delete"@ {
        Some(EditorCommand::PromptDeleteChar)
    } else if n == "delete_forward"@ || n == "delete.forward"@ || n == "del"@ {
        Some(EditorCommand::DeleteForward)
    } else {
        None
    }
}

fn lookup_modal(n: &str) -> (r: Option<EditorCommand>)
    ensures
        r == builtin_modal(n@),
{
    if str_eq(n, "mode.insert") || str_eq(n, "insert_mode") || str_eq(n, "insert") {
        Some(EditorCommand::ChangeMode(EditorMode::Insert))
    } else if str_eq(n, "mode.normal") || str_eq(n, "normal_mode") || str_eq(n, "normal") {
        Some(EditorCommand::ChangeMode(EditorMode::Normal))
    } else if str_eq(n, "mode.prompt") || str_eq(n, "prompt_mode") {
        Some(EditorCommand::ChangeMode(EditorMode::Prompt))
    } else if str_eq(n, "prompt.accept") || str_eq(n, "accept_prompt") || str_eq(n, "accept") {
        Some(EditorCommand::AcceptPrompt)
    } else if str_eq(n, "prompt.cancel") || str_eq(n, "cancel_prompt") || str_eq(n, "cancel") {
        Some(EditorCommand::CancelPrompt)
    } else if str_eq(n, "prompt.delete_char") || str_eq(n, "prompt_delete") {
        Some(EditorCommand::PromptDeleteChar)
    } else if str_eq(n, "delete_forward") || str_eq(n, "delete.forward") || str_eq(n, "del") {
        Some(EditorCommand::DeleteForward)
    } else {
        None
    }
}

/// The built-in commands of the motion table named by `n` (lowercase).
pub open spec fn builtin_motion(n: Seq<char>) -> Option<EditorCommand> {
    if n == "move.line_start"@ || n == "move_line_start"@ || n == "line_start"@ || n == "home"@ {
        Some(EditorCommand::MoveToLineStart)
    } else if n == "move.line_end"@ || n == "move_line_end"@ || n == "line_end"@ || n == "end"@ {
        Some(EditorCommand::MoveToLineEnd)
    } else if n == "page.up"@ || n == "page_up"@ || n == "pageup"@ {
        Some(EditorCommand::PageUp)
    } else if n == "page.down"@ || n == "page_down"@ || n == "pagedown"@ {
        Some(EditorCommand::PageDown)
    } else if n == "insert_tab"@ || n == "tab"@ {
        Some(EditorCommand::InsertTab)
    } else {
        None
    }
}

fn lookup_motion(n: &str) -> (r: Option<EditorCommand>)
    ensures
        r == builtin_motion(n@),
{
    if str_eq(n, "move.line_start") || str_eq(n, "move_line_start") || str_eq(n, "line_start") || str_eq(n, "home") {
        Some(EditorCommand::MoveToLineStart)
    } else if str_eq(n, "move.line_end") || str_eq(n, "move_line_end") || str_eq(n, "line_end") || str_eq(n, "end") {
        Some(EditorCommand::MoveToLineEnd)
    } else if str_eq(n, "page.up") || str_eq(n, "page_up") || str_eq(n, "pageup") {
        Some(EditorCommand::PageUp)
    } else if str_eq(n, "page.down") || str_eq(n, "page_down") || str_eq(n, "pagedown") {
        Some(EditorCommand::PageDown)
    } else if str_eq(n, "insert_tab") || str_eq(n, "tab") {
        Some(EditorCommand::InsertTab)
    } else {
        None
    }
}

/// The built-in commands of the selection and clipboard table named by `n` (lowercase).
pub open spec fn builtin_selection(n: Seq<char>) -> Option<EditorCommand> {
    if n == "select.left"@ || n == "select_left"@ {
        Some(EditorCommand::SelectLeft)
    } else if n == "select.right"@ || n == "select_right"@ {
        Some(EditorCommand::SelectRight)
    } else if n == "select.up"@ || n == "select_up"@ {
        Some(EditorCommand::SelectUp)
    } else if n == "select.down"@ || n == "select_down"@ {
        Some(EditorCommand::SelectDown)
    } else if n == "select.line_start"@ || n == "select_line_start"@ {
        Some(EditorCommand::SelectLineStart)
    } else if n == "select.line_end"@ || n == "select_line_end"@ {
        Some(EditorCommand::SelectLineEnd)
    } else if n == "select.all"@ || n == "select_all"@ {
        Some(EditorCommand::SelectAll)
    } else if n == "copy"@ {
        Some(EditorCommand::Copy)
    } else if n == "cut"@ {
        Some(EditorCommand::Cut)
    } else if n == "paste"@ {
        Some(EditorCommand::Paste)
    } else {
        None
    }
}

fn lookup_selection(n: &str) -> (r: Option<EditorCommand>)
    ensures
        r == builtin_selection(n@),
{
    if str_eq(n, "select.left") || str_eq(n, "select_left") {
        Some(EditorCommand::SelectLeft)
    } else if str_eq(n, "select.right") || str_eq(n, "select_right") {
        Some(EditorCommand::SelectRight)
    } else if str_eq(n, "select.up") || str_eq(n, "select_up") {
        Some(EditorCommand::SelectUp)
    } else if str_eq(n, "select.down") || str_eq(n, "select_down") {
        Some(EditorCommand::SelectDown)
    } else if str_eq(n, "select.line_start") || str_eq(n, "select_line_start") {
        Some(EditorCommand::SelectLineStart)
    } else if str_eq(n, "select.line_end") || str_eq(n, "select_line_end") {
        Some(EditorCommand::SelectLineEnd)
    } else if str_eq(n, "select.all") || str_eq(n, "select_all") {
        Some(EditorCommand::SelectAll)
    } else if str_eq(n, "copy") {
        Some(EditorCommand::Copy)
    } else if str_eq(n, "cut") {
        Some(EditorCommand::Cut)
    } else if str_eq(n, "paste") {
        Some(EditorCommand::Paste)
    } else {
        None
    }
}

/// The built-in command named by `n` (a lowercase, trimmed name).
pub open spec fn builtin_command(n: Seq<char>) -> Option<EditorCommand> {
    match builtin_editing(n) {
        Some(c) => Some(c),
        None => match builtin_modal(n) {
            Some(c) => Some(c),
            None => match builtin_motion(n) {
                Some(c) => Some(c),
                None => builtin_selection(n),
            },
        },
    }
}

/// Whether a character is an ASCII letter or digit.
pub open spec fn is_ascii_alnum(c: char) -> bool {
    (97 <= (c as u32) <= 122) || (65 <= (c as u32) <= 90) || (48 <= (c as u32) <= 57)
}

/// Whether a plugin name is made of ASCII letters, digits, `-` and `_`.
pub open spec fn valid_plugin_name(s: Seq<char>) -> bool {
    forall|i: int| 0 <= i < s.len() ==> is_ascii_alnum(#[trigger] s[i]) || s[i] == '-' || s[i] == '_'
}

/// Whether a plugin command name is made of ASCII letters, digits and `_`.
pub open spec fn valid_command_name(s: Seq<char>) -> bool {
    forall|i: int| 0 <= i < s.len() ==> is_ascii_alnum(#[trigger] s[i]) || s[i] == '_'
}

/// The plugin and command names of a dotted name `plugin.command`: exactly
/// one dot, both sides non-empty and made of valid characters.
pub open spec fn plugin_parts(n: Seq<char>) -> Option<(Seq<char>, Seq<char>)> {
    let ps = split_on(n, |c: char| c == '.');
    if ps.len() == 2 && ps[0].len() > 0 && ps[1].len() > 0 && valid_plugin_name(ps[0])
        && valid_command_name(ps[1]) {
        Some((ps[0], ps[1]))
    } else {
        None
    }
}

/// What parsing a name gives, once the input has been trimmed to `t` and
/// lowercased to `n`: `Ok` with the command, or the error kind with the text
/// it carries.
pub open spec fn command_outcome(
    n: Seq<char>,
    t: Seq<char>,
    r: Result<EditorCommand, CommandParseError>,
) -> bool {
    if t.len() == 0 {
        r == Err::<EditorCommand, CommandParseError>(CommandParseError::EmptyCommand)
    } else {
        match builtin_command(n) {
            Some(c) => r == Ok::<EditorCommand, CommandParseError>(c),
            None => if n.contains('.') {
                match plugin_parts(n) {
                    Some((p, c)) => r matches Ok(EditorCommand::PluginCommand { plugin_name, command_name })
                        && plugin_name@ == p && command_name@ == c,
                    None => r matches Err(CommandParseError::InvalidPluginCommandFormat(x)) && x@ == t,
                }
            } else {
                r matches Err(CommandParseError::UnknownCommand(x)) && x@ == t
            },
        }
    }
}

fn is_ascii_alnum_exec(c: char) -> (r: bool)
    ensures
        r == is_ascii_alnum(c),
{
    let v = c as u32;
    (97 <= v && v <= 122) || (65 <= v && v <= 90) || (48 <= v && v <= 57)
}

fn valid_name_exec(s: &str, allow_hyphen: bool) -> (r: bool)
    ensures
        allow_hyphen ==> r == valid_plugin_name(s@),
        !allow_hyphen ==> r == valid_command_name(s@),
{
    let n = char_len(s);
    let mut i: usize = 0;
    while i < n
        invariant
            n == s@.len(),
            i <= n,
            allow_hyphen ==> forall|j: int| 0 <= j < i ==> is_ascii_alnum(#[trigger] s@[j]) || s@[j] == '-' || s@[j] == '_',
            !allow_hyphen ==> forall|j: int| 0 <= j < i ==> is_ascii_alnum(#[trigger] s@[j]) || s@[j] == '_',
        decreases n - i,
    {
        let c = s.get_char(i);
        let ok = is_ascii_alnum_exec(c) || c == '_' || (allow_hyphen && c == '-');
        if !ok {
            return false;
        }
        i = i + 1;
    }
    true
}

impl EditorCommand {
    /// The built-in command named exactly by `name` (already trimmed and
    /// lowercased), if any.
    pub fn builtin(name: &str) -> (r: Option<EditorCommand>)
        ensures
            r == builtin_command(name@),
    {
        match lookup_editing(name) {
            Some(c) => Some(c),
            None => match lookup_modal(name) {
                Some(c) => Some(c),
                None => match lookup_motion(name) {
                    Some(c) => Some(c),
                    None => lookup_selection(name),
                },
            },
        }
    }

    /// Parses a command from its trimmed text `trimmed_input` and that
    /// text's lowercase form `name`: a built-in name, else a dotted plugin
    /// command, else an error carrying the trimmed text.
    pub fn from_lowercase(name: &str, trimmed_input: &str) -> (r: Result<EditorCommand, CommandParseError>)
        ensures
            command_outcome(name@, trimmed_input@, r),
    {
        if char_len(trimmed_input) == 0 {
            return Err(CommandParseError::EmptyCommand);
        }
        if let Some(c) = EditorCommand::builtin(name) {
            return Ok(c);
        }
        if !contains_char(name, '.') {
            return Err(CommandParseError::UnknownCommand(String::from_str(trimmed_input)));
        }
        let pieces = split_by(name, '.');
        proof {
            assert(views_of(pieces@).len() == pieces@.len());
        }
        if pieces.len() == 2 {
            proof {
                assert(views_of(pieces@)[0] == pieces@[0]@);
                assert(views_of(pieces@)[1] == pieces@[1]@);
            }
            let plugin = pieces[0].as_str();
            let command = pieces[1].as_str();
            if char_len(plugin) > 0 && char_len(command) > 0 && valid_name_exec(plugin, true)
                && valid_name_exec(command, false) {
                return Ok(
                    EditorCommand::PluginCommand {
                        plugin_name: String::from_str(plugin),
                        command_name: String::from_str(command),
                    },
                );
            }
        }
        Err(CommandParseError::InvalidPluginCommandFormat(String::from_str(trimmed_input)))
    }

    /// Parses a command name: surrounding whitespace is removed and case is
    /// ignored.
    pub fn parse(s: &str) -> (r: Result<EditorCommand, CommandParseError>)
        ensures
            command_outcome(lowercase(trimmed(s@)), trimmed(s@), r),
    {
        let t = trim(s);
        let lower = to_lowercase(t);
        EditorCommand::from_lowercase(lower.as_str(), t)
    }
}

/// Whether two commands are the same command: equal, or plugin commands
/// with the same plugin and command names.
pub open spec fn same_command(a: EditorCommand, b: EditorCommand) -> bool {
    match (a, b) {
        (
            EditorCommand::PluginCommand { plugin_name: p1, command_name: c1 },
            EditorCommand::PluginCommand { plugin_name: p2, command_name: c2 },
        ) => p1@ == p2@ && c1@ == c2@,
        _ => a == b,
    }
}

impl EditorCommand {
    /// A copy of the command.
    pub fn copied(&self) -> (r: EditorCommand)
        ensures
            same_command(r, *self),
    {
        match self {
            EditorCommand::PluginCommand { plugin_name, command_name } => EditorCommand::PluginCommand {
                plugin_name: plugin_name.clone(),
                command_name: command_name.clone(),
            },
            EditorCommand::InsertChar(c) => EditorCommand::InsertChar(*c),
            EditorCommand::DeleteChar => EditorCommand::DeleteChar,
            EditorCommand::DeleteForward => EditorCommand::DeleteForward,
            EditorCommand::MoveCursor(d) => EditorCommand::MoveCursor(*d),
            EditorCommand::MoveToLineStart => EditorCommand::MoveToLineStart,
            EditorCommand::MoveToLineEnd => EditorCommand::MoveToLineEnd,
            EditorCommand::PageUp => EditorCommand::PageUp,
            EditorCommand::PageDown => EditorCommand::PageDown,
            EditorCommand::InsertTab => EditorCommand::InsertTab,
            EditorCommand::Save => EditorCommand::Save,
            EditorCommand::Quit => EditorCommand::Quit,
            EditorCommand::ChangeMode(m) => EditorCommand::ChangeMode(*m),
            EditorCommand::PromptInsertChar(c) => EditorCommand::PromptInsertChar(*c),
            EditorCommand::PromptDeleteChar => EditorCommand::PromptDeleteChar,
            EditorCommand::AcceptPrompt => EditorCommand::AcceptPrompt,
            EditorCommand::CancelPrompt => EditorCommand::CancelPrompt,
            EditorCommand::SelectLeft => EditorCommand::SelectLeft,
            EditorCommand::SelectRight => EditorCommand::SelectRight,
            EditorCommand::SelectUp => EditorCommand::SelectUp,
            EditorCommand::SelectDown => EditorCommand::SelectDown,
            EditorCommand::SelectLineStart => EditorCommand::SelectLineStart,
            EditorCommand::SelectLineEnd => EditorCommand::SelectLineEnd,
            EditorCommand::SelectAll => EditorCommand::SelectAll,
            EditorCommand::Copy => EditorCommand::Copy,
            EditorCommand::Cut => EditorCommand::Cut,
            EditorCommand::Paste => EditorCommand::Paste,
        }
    }
}

impl std::str::FromStr for EditorCommand {
    type Err = CommandParseError;

    /// Same as [`EditorCommand::parse`].
    fn from_str(s: &str) -> (r: Result<Self, Self::Err>)
        ensures
            command_outcome(lowercase(trimmed(s@)), trimmed(s@), r),
    {
        EditorCommand::parse(s)
    }
}

} // verus!
