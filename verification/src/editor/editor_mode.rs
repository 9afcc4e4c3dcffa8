//! The editing modes.
use vstd::prelude::*;
use crate::textops::{
    all_ascii, ascii_lowercase, lemma_letters_are_not_white_space, lemma_trimmed_padded,
    lemma_trimmed_unchanged, lowercase, str_eq, to_lowercase, trim, trimmed, white_space,
};

verus! {

/// Error for a mode name that is not `insert`, `normal` or `prompt`.
#[derive(Debug, Clone, PartialEq, Eq)]
pub struct ParseModeError {
    /// The text that was given.
    pub invalid: String,
}

impl ParseModeError {
    /// The human-readable message of the error.
    pub fn to_string(&self) -> (r: String)
        ensures
            r@ == "unknown mode '"@ + self.invalid@
                + "'. Valid modes are: 'insert', 'normal', 'prompt'"@,
    {
        let mut r = String::from_str("unknown mode '");
        r.append(self.invalid.as_str());
        r.append("'. Valid modes are: 'insert', 'normal', 'prompt'");
        r
    }
}

/// The editing mode.
#[derive(Debug, Clone, Copy, PartialEq, Eq, Structural)]
pub enum EditorMode {
    /// Characters typed are inserted into the buffer.
    Insert,
    /// Navigation and commands.
    Normal,
    /// The user is being prompted for input.
    Prompt,
}

/// The name of a mode in the status bar.
pub open spec fn mode_label(m: EditorMode) -> Seq<char> {
    match m {
        EditorMode::Insert => "INSERT"@,
        EditorMode::Normal => "NORMAL"@,
        EditorMode::Prompt => "PROMPT"@,
    }
}

/// The mode whose lowercase name is exactly `name`.
pub open spec fn editor_mode_of_name(name: Seq<char>) -> Option<EditorMode> {
    if name == "insert"@ {
        Some(EditorMode::Insert)
    } else if name == "normal"@ {
        Some(EditorMode::Normal)
    } else if name == "prompt"@ {
        Some(EditorMode::Prompt)
    } else {
        None
    }
}

/// The mode named by `s`, ignoring case and surrounding whitespace.
pub open spec fn editor_mode_of_text(s: Seq<char>) -> Option<EditorMode> {
    editor_mode_of_name(lowercase(trimmed(s)))
}

/// A mode's status-bar name ("INSERT", "NORMAL", "PROMPT") parses back to
/// the mode.
pub proof fn law_label_parses_back(m: EditorMode)
    ensures
        editor_mode_of_text(mode_label(m)) == Some(m),
{
    reveal_strlit("INSERT");
    reveal_strlit("NORMAL");
    reveal_strlit("PROMPT");
    reveal_strlit("insert");
    reveal_strlit("normal");
    reveal_strlit("prompt");
    let l = mode_label(m);
    lemma_trimmed_unchanged(l);
    assert(all_ascii(l));
    let name = match m {
        EditorMode::Insert => "insert"@,
        EditorMode::Normal => "normal"@,
        EditorMode::Prompt => "prompt"@,
    };
    assert(ascii_lowercase(l) =~= name);
    assert(lowercase(trimmed(l)) == name);
    assert("insert"@[0] != "normal"@[0] && "insert"@[0] != "prompt"@[0]);
    assert("normal"@[0] != "prompt"@[0]);
}

/// The lowercase name of a mode, which parsing accepts.
pub open spec fn mode_name(m: EditorMode) -> Seq<char> {
    match m {
        EditorMode::Insert => "insert"@,
        EditorMode::Normal => "normal"@,
        EditorMode::Prompt => "prompt"@,
    }
}

/// A mode's name in any ASCII case, with any white space around it, parses
/// to the mode.
pub proof fn law_text_ignores_case_and_padding(
    m: EditorMode,
    pre: Seq<char>,
    name: Seq<char>,
    post: Seq<char>,
)
    requires
        all_ascii(name),
        ascii_lowercase(name) == mode_name(m),
        forall|i: int| 0 <= i < pre.len() ==> white_space(#[trigger] pre[i]),
        forall|i: int| 0 <= i < post.len() ==> white_space(#[trigger] post[i]),
    ensures
        editor_mode_of_text(pre + name + post) == Some(m),
{
    reveal_strlit("insert");
    reveal_strlit("normal");
    reveal_strlit("prompt");
    assert("insert"@[0] != "normal"@[0] && "insert"@[0] != "prompt"@[0]);
    assert("normal"@[0] != "prompt"@[0]);
    assert(name.len() == mode_name(m).len());
    assert(name.len() == 6);
    lemma_letters_are_not_white_space(name, 0);
    lemma_letters_are_not_white_space(name, name.len() - 1);
    lemma_trimmed_padded(pre, name, post);
}

impl EditorMode {
    /// The mode's name in the status bar: "INSERT", "NORMAL" or "PROMPT".
    pub fn to_string(&self) -> (r: &'static str)
        ensures
            r@ == mode_label(*self),
    {
        match self {
            EditorMode::Insert => "INSERT",
            EditorMode::Normal => "NORMAL",
            EditorMode::Prompt => "PROMPT",
        }
    }

    /// The mode whose lowercase name is exactly `name`.
    pub fn from_name(name: &str) -> (r: Option<EditorMode>)
        ensures
            r == editor_mode_of_name(name@),
    {
        if str_eq(name, "insert") {
            Some(EditorMode::Insert)
        } else if str_eq(name, "normal") {
            Some(EditorMode::Normal)
        } else if str_eq(name, "prompt") {
            Some(EditorMode::Prompt)
        } else {
            None
        }
    }

    /// Parses a mode name, case-insensitively and ignoring surrounding
    /// whitespace; an unknown name gives an error carrying the input.
    pub fn parse(s: &str) -> (r: Result<EditorMode, ParseModeError>)
        ensures
            match editor_mode_of_text(s@) {
                Some(m) => r == Ok::<EditorMode, ParseModeError>(m),
                None => r matches Err(e) && e.invalid@ == s@,
            },
    {
        let lower = to_lowercase(trim(s));
        match EditorMode::from_name(lower.as_str()) {
            Some(m) => Ok(m),
            None => Err(ParseModeError { invalid: String::from_str(s) }),
        }
    }
}

impl Default for EditorMode {
    /// Insert mode.
    fn default() -> (r: Self)
        ensures
            r == EditorMode::Insert,
    {
        EditorMode::Insert
    }
}

impl std::str::FromStr for EditorMode {
    type Err = ParseModeError;

    /// Same as [`EditorMode::parse`].
    fn from_str(s: &str) -> (r: Result<Self, Self::Err>)
        ensures
            match editor_mode_of_text(s@) {
                Some(m) => r == Ok::<EditorMode, ParseModeError>(m),
                None => r matches Err(e) && e.invalid@ == s@,
            },
    {
        EditorMode::parse(s)
    }
}

} // verus!
