//! Key patterns, key sequences and key bindings.
//!
//! A key sequence is written as space-separated keys, each with optional
//! `+`-joined modifiers: `"Ctrl+S"`, `"d d"`, `"Ctrl+X k"`.  Modifier and
//! special key names are case-insensitive; a single-character key keeps its
//! case.
use vstd::prelude::*;
use crate::editor::EditorMode;
use crate::textops::{
    all_ascii, ascii_lowercase, char_len, split_by, split_on, split_words, to_lowercase, trim, trimmed, lowercase,
    views_of, words, str_eq,
};
use super::command::EditorCommand;
use super::keys::{KeyCode, KeyEvent, KeyModifiers};

pub use crate::plugin_api::input::{Priority, priority_level};

verus! {

/// The primary modifier for shortcuts such as save and quit off macOS:
/// Control.
pub fn primary_modifier() -> (r: KeyModifiers)
    ensures
        r.bits == 2,
{
    KeyModifiers::control()
}

/// The primary modifier on a platform: Super (the Command key) on macOS,
/// Control elsewhere.
pub fn primary_modifier_for(macos: bool) -> (r: KeyModifiers)
    ensures
        r.bits == (if macos {
            8u8
        } else {
            2u8
        }),
{
    if macos {
        KeyModifiers::super_key()
    } else {
        KeyModifiers::control()
    }
}

/// One key with the exact modifiers that must be held.
#[derive(Debug, Clone, Copy, PartialEq, Eq, Hash, Structural)]
pub struct KeyPattern {
    /// The key.
    pub code: KeyCode,
    /// The modifiers, matched exactly.
    pub modifiers: KeyModifiers,
}

impl KeyPattern {
    /// The pattern for `code` with exactly `modifiers`.
    pub fn new(code: KeyCode, modifiers: KeyModifiers) -> (r: Self)
        ensures
            r.code == code,
            r.modifiers == modifiers,
    {
        KeyPattern { code, modifiers }
    }

    /// Whether the event has this key and exactly these modifiers.
    pub fn matches(&self, event: &KeyEvent) -> (r: bool)
        ensures
            r == (self.code == event.code && self.modifiers == event.modifiers),
    {
        self.code == event.code && self.modifiers == event.modifiers
    }
}

/// A non-empty sequence of key patterns, pressed in order.
#[derive(Debug, PartialEq, Eq)]
pub struct KeySequence {
    patterns: Vec<KeyPattern>,
}

impl View for KeySequence {
    type V = Seq<KeyPattern>;

    closed spec fn view(&self) -> Seq<KeyPattern> {
        self.patterns@
    }
}

/// Whether `buffer` is a proper, non-empty prefix of the sequence `seq`.
pub open spec fn is_proper_prefix(seq: Seq<KeyPattern>, buffer: Seq<KeyPattern>) -> bool {
    0 < buffer.len() < seq.len() && seq.subrange(0, buffer.len() as int) == buffer
}

impl KeySequence {
    /// A key sequence has at least one key.
    #[verifier::type_invariant]
    spec fn has_keys(self) -> bool {
        self.patterns.len() > 0
    }

    /// The sequence of `patterns`; `None` when there are none.
    pub fn new(patterns: Vec<KeyPattern>) -> (r: Option<Self>)
        ensures
            patterns@.len() == 0 ==> r is None,
            patterns@.len() > 0 ==> (r matches Some(s) && s@ == patterns@),
    {
        if patterns.len() == 0 {
            None
        } else {
            Some(KeySequence { patterns })
        }
    }

    /// The keys, in order.
    pub fn patterns(&self) -> (r: &Vec<KeyPattern>)
        ensures
            r@ == self@,
    {
        &self.patterns
    }

    /// The number of keys, at least one.
    pub fn len(&self) -> (r: usize)
        ensures
            r == self@.len(),
            r >= 1,
    {
        proof {
            use_type_invariant(self);
        }
        self.patterns.len()
    }

    /// Whether the sequence has no keys: never, as every sequence has at
    /// least one key.
    pub fn is_empty(&self) -> (r: bool)
        ensures
            r == (self@.len() == 0),
            !r,
    {
        proof {
            use_type_invariant(self);
        }
        self.patterns.len() == 0
    }

    /// Whether `buffer` is exactly this sequence.
    pub fn matches(&self, buffer: &[KeyPattern]) -> (r: bool)
        ensures
            r == (self@ == buffer@),
    {
        if self.patterns.len() != buffer.len() {
            return false;
        }
        let mut i: usize = 0;
        while i < buffer.len()
            invariant
                self.patterns@.len() == buffer@.len(),
                i <= buffer@.len(),
                forall|j: int| 0 <= j < i ==> self.patterns@[j] == buffer@[j],
            decreases buffer@.len() - i,
        {
            if self.patterns[i] != buffer[i] {
                return false;
            }
            i = i + 1;
        }
        assert(self.patterns@ =~= buffer@);
        true
    }

    /// Whether `buffer` is a non-empty proper prefix of this sequence: the
    /// user is part-way through typing it.
    pub fn is_partial_match(&self, buffer: &[KeyPattern]) -> (r: bool)
        ensures
            r == is_proper_prefix(self@, buffer@),
    {
        if buffer.len() == 0 || buffer.len() >= self.patterns.len() {
            return false;
        }
        let mut i: usize = 0;
        while i < buffer.len()
            invariant
                buffer@.len() < self.patterns@.len(),
                i <= buffer@.len(),
                forall|j: int| 0 <= j < i ==> self.patterns@[j] == buffer@[j],
            decreases buffer@.len() - i,
        {
            if self.patterns[i] != buffer[i] {
                assert(self@.subrange(0, buffer@.len() as int)[i as int] != buffer@[i as int]);
                return false;
            }
            i = i + 1;
        }
        assert(self@.subrange(0, buffer@.len() as int) =~= buffer@);
        true
    }

    /// Equality of the keys of two sequences.
    pub fn same_keys(&self, other: &KeySequence) -> (r: bool)
        ensures
            r == (self@ == other@),
    {
        self.matches(other.patterns.as_slice())
    }

    /// Parses a key sequence (see the module documentation for the format).
    pub fn parse(s: &str) -> (r: Result<KeySequence, ParseError>)
        ensures
            match sequence_of_text(s@) {
                Ok(ps) => r matches Ok(seq) && seq@ == ps,
                Err(e) => r matches Err(err) && err@ == e,
            },
    {
        let t = trim(s);
        if char_len(t) == 0 {
            return Err(ParseError::EmptyInput);
        }
        let ws = split_words(t);
        let ghost wv = views_of(ws@);
        let mut patterns: Vec<KeyPattern> = Vec::new();
        let mut i: usize = 0;
        assert(wv.subrange(0, 0) =~= Seq::<Seq<char>>::empty());
        while i < ws.len()
            invariant
                wv == views_of(ws@),
                wv == words(trimmed(s@)),
                trimmed(s@).len() > 0,
                i <= ws@.len(),
                patterns_of(wv.subrange(0, i as int)) == Ok::<Seq<KeyPattern>, KeyParseFailure>(
                    patterns@,
                ),
            decreases ws@.len() - i,
        {
            assert(wv.subrange(0, i + 1).drop_last() =~= wv.subrange(0, i as int));
            assert(wv.subrange(0, i + 1).last() == ws@[i as int]@);
            match parse_key_pattern(ws[i].as_str()) {
                Ok(p) => {
                    patterns.push(p);
                },
                Err(e) => {
                    proof {
                        lemma_patterns_error_prefix(wv, i + 1);
                    }
                    return Err(e);
                },
            }
            i = i + 1;
        }
        assert(wv.subrange(0, ws@.len() as int) =~= wv);
        match KeySequence::new(patterns) {
            Some(seq) => Ok(seq),
            None => Err(ParseError::EmptyInput),
        }
    }
}

impl Clone for KeySequence {
    /// The same keys.
    fn clone(&self) -> (r: Self)
        ensures
            r@ == self@,
    {
        proof {
            use_type_invariant(self);
        }
        let mut patterns: Vec<KeyPattern> = Vec::new();
        let mut i: usize = 0;
        while i < self.patterns.len()
            invariant
                i <= self.patterns@.len(),
                patterns@ == self.patterns@.subrange(0, i as int),
            decreases self.patterns@.len() - i,
        {
            patterns.push(self.patterns[i]);
            i = i + 1;
            proof {
                assert(patterns@ =~= self.patterns@.subrange(0, i as int));
            }
        }
        proof {
            assert(self.patterns@.subrange(0, self.patterns@.len() as int) =~= self.patterns@);
        }
        KeySequence { patterns }
    }
}

impl std::str::FromStr for KeySequence {
    type Err = ParseError;

    /// Same as [`KeySequence::parse`].
    fn from_str(s: &str) -> (r: Result<Self, Self::Err>)
        ensures
            match sequence_of_text(s@) {
                Ok(ps) => r matches Ok(seq) && seq@ == ps,
                Err(e) => r matches Err(err) && err@ == e,
            },
    {
        KeySequence::parse(s)
    }
}

/// Why a key sequence does not parse.
#[derive(Debug, Clone, PartialEq, Eq)]
pub enum ParseError {
    /// The input is empty or blank.
    EmptyInput,
    /// A key pattern is empty.
    EmptyPattern,
    /// A modifier name is not Ctrl, Shift, Alt or Super.
    UnknownModifier(String),
    /// A key name is unknown.
    UnknownKey(String),
    /// A key pattern has an empty part, as in `"Ctrl+"` or `"Ctrl++S"`.
    InvalidFormat(String),
}

/// A parse error with its text as characters.
pub enum KeyParseFailure {
    /// The input is empty or blank.
    EmptyInput,
    /// A key pattern is empty.
    EmptyPattern,
    /// An unknown modifier name.
    UnknownModifier(Seq<char>),
    /// An unknown key name.
    UnknownKey(Seq<char>),
    /// A key pattern with an empty part.
    InvalidFormat(Seq<char>),
}

impl View for ParseError {
    type V = KeyParseFailure;

    open spec fn view(&self) -> KeyParseFailure {
        match self {
            ParseError::EmptyInput => KeyParseFailure::EmptyInput,
            ParseError::EmptyPattern => KeyParseFailure::EmptyPattern,
            ParseError::UnknownModifier(m) => KeyParseFailure::UnknownModifier(m@),
            ParseError::UnknownKey(k) => KeyParseFailure::UnknownKey(k@),
            ParseError::InvalidFormat(f) => KeyParseFailure::InvalidFormat(f@),
        }
    }
}

/// The message of a key sequence parse error.
pub open spec fn parse_error_message(e: KeyParseFailure) -> Seq<char> {
    match e {
        KeyParseFailure::EmptyInput => "empty key sequence string"@,
        KeyParseFailure::EmptyPattern => "empty key pattern: expected key name after modifiers"@,
        KeyParseFailure::UnknownModifier(m) => "unknown modifier '"@ + m
            + "': valid modifiers are Ctrl, Shift, Alt, Super"@,
        KeyParseFailure::UnknownKey(k) => "unknown key name '"@ + k
            + "': check spelling or use special key names like Enter, Esc, Tab, etc."@,
        KeyParseFailure::InvalidFormat(f) => "invalid key pattern format '"@ + f
            + "': expected format like 'Ctrl+S' or 'd d'"@,
    }
}

impl ParseError {
    /// The human-readable message of the error.
    pub fn to_string(&self) -> (r: String)
        ensures
            r@ == parse_error_message(self@),
    {
        match self {
            ParseError::EmptyInput => String::from_str("empty key sequence string"),
            ParseError::EmptyPattern => String::from_str(
                "empty key pattern: expected key name after modifiers",
            ),
            ParseError::UnknownModifier(m) => {
                let mut r = String::from_str("unknown modifier '");
                r.append(m.as_str());
                r.append("': valid modifiers are Ctrl, Shift, Alt, Super");
                r
            },
            ParseError::UnknownKey(k) => {
                let mut r = String::from_str("unknown key name '");
                r.append(k.as_str());
                r.append("': check spelling or use special key names like Enter, Esc, Tab, etc.");
                r
            },
            ParseError::InvalidFormat(f) => {
                let mut r = String::from_str("invalid key pattern format '");
                r.append(f.as_str());
                r.append("': expected format like 'Ctrl+S' or 'd d'");
                r
            },
        }
    }
}

/// The modifier bit named by a lowercase name.
pub open spec fn modifier_of_name(n: Seq<char>) -> Option<u8> {
    if n == "ctrl"@ || n == "control"@ {
        Some(2)
    } else if n == "shift"@ {
        Some(1)
    } else if n == "alt"@ {
        Some(4)
    } else if n == "super"@ || n == "cmd"@ || n == "command"@ {
        Some(8)
    } else {
        None
    }
}

/// The special key named by a lowercase name.
pub open spec fn special_key_of_name(n: Seq<char>) -> Option<KeyCode> {
    if n == "enter"@ || n == "return"@ {
        Some(KeyCode::Enter)
    } else if n == "esc"@ || n == "escape"@ {
        Some(KeyCode::Esc)
    } else if n == "tab"@ {
        Some(KeyCode::Tab)
    } else if n == "backspace"@ || n == "back"@ {
        Some(KeyCode::Backspace)
    } else if n == "delete"@ || n == "del"@ {
        Some(KeyCode::Delete)
    } else if n == "space"@ {
        Some(KeyCode::Char(' '))
    } else if n == "up"@ {
        Some(KeyCode::Up)
    } else if n == "down"@ {
        Some(KeyCode::Down)
    } else if n == "left"@ {
        Some(KeyCode::Left)
    } else if n == "right"@ {
        Some(KeyCode::Right)
    } else if n == "home"@ {
        Some(KeyCode::Home)
    } else if n == "end"@ {
        Some(KeyCode::End)
    } else if n == "pageup"@ || n == "pgup"@ {
        Some(KeyCode::PageUp)
    } else if n == "pagedown"@ || n == "pgdown"@ {
        Some(KeyCode::PageDown)
    } else {
        None
    }
}

/// The modifier names, in any ASCII case: Ctrl or Control, Shift, Alt, and
/// Super, Cmd or Command, each with its own bit.
pub proof fn law_modifier_names(s: Seq<char>)
    requires
        all_ascii(s),
    ensures
        ascii_lowercase(s) == "ctrl"@ || ascii_lowercase(s) == "control"@ ==> modifier_of_name(lowercase(s)) == Some(2u8),
        ascii_lowercase(s) == "shift"@ ==> modifier_of_name(lowercase(s)) == Some(1u8),
        ascii_lowercase(s) == "alt"@ ==> modifier_of_name(lowercase(s)) == Some(4u8),
        ascii_lowercase(s) == "super"@ || ascii_lowercase(s) == "cmd"@ || ascii_lowercase(s) == "command"@ ==> modifier_of_name(lowercase(s)) == Some(8u8),
{
    reveal_strlit("ctrl");
    reveal_strlit("control");
    reveal_strlit("shift");
    reveal_strlit("alt");
    reveal_strlit("super");
    reveal_strlit("cmd");
    reveal_strlit("command");
    assert("control"@.len() != "ctrl"@.len());
    assert("shift"@.len() != "ctrl"@.len());
    assert("shift"@.len() != "control"@.len());
    assert("alt"@.len() != "ctrl"@.len());
    assert("alt"@.len() != "control"@.len());
    assert("alt"@.len() != "shift"@.len());
    assert("super"@.len() != "ctrl"@.len());
    assert("super"@.len() != "control"@.len());
    assert("super"@[1] != "shift"@[1]);
    assert("super"@.len() != "alt"@.len());
    assert("cmd"@.len() != "ctrl"@.len());
    assert("cmd"@.len() != "control"@.len());
    assert("cmd"@.len() != "shift"@.len());
    assert("cmd"@[0] != "alt"@[0]);
    assert("cmd"@.len() != "super"@.len());
    assert("command"@.len() != "ctrl"@.len());
    assert("command"@[2] != "control"@[2]);
    assert("command"@.len() != "shift"@.len());
    assert("command"@.len() != "alt"@.len());
    assert("command"@.len() != "super"@.len());
    assert("command"@.len() != "cmd"@.len());
    assert(lowercase(s) == ascii_lowercase(s));
}

/// Each special key is named by its name and by its aliases, in any ASCII
/// case: Enter or Return, Esc or Escape, Tab, Backspace or Back, Delete or
/// Del, Space, the four arrows, Home, End, PageUp or PgUp, PageDown or
/// PgDown.
pub proof fn law_special_key_names(s: Seq<char>)
    requires
        all_ascii(s),
    ensures
        ascii_lowercase(s) == "enter"@ || ascii_lowercase(s) == "return"@ ==> key_code_of(s) == Some(KeyCode::Enter),
        ascii_lowercase(s) == "esc"@ || ascii_lowercase(s) == "escape"@ ==> key_code_of(s) == Some(KeyCode::Esc),
        ascii_lowercase(s) == "tab"@ ==> key_code_of(s) == Some(KeyCode::Tab),
        ascii_lowercase(s) == "backspace"@ || ascii_lowercase(s) == "back"@ ==> key_code_of(s) == Some(KeyCode::Backspace),
        ascii_lowercase(s) == "delete"@ || ascii_lowercase(s) == "del"@ ==> key_code_of(s) == Some(KeyCode::Delete),
        ascii_lowercase(s) == "space"@ ==> key_code_of(s) == Some(KeyCode::Char(' ')),
        ascii_lowercase(s) == "up"@ ==> key_code_of(s) == Some(KeyCode::Up),
        ascii_lowercase(s) == "down"@ ==> key_code_of(s) == Some(KeyCode::Down),
        ascii_lowercase(s) == "left"@ ==> key_code_of(s) == Some(KeyCode::Left),
        ascii_lowercase(s) == "right"@ ==> key_code_of(s) == Some(KeyCode::Right),
        ascii_lowercase(s) == "home"@ ==> key_code_of(s) == Some(KeyCode::Home),
        ascii_lowercase(s) == "end"@ ==> key_code_of(s) == Some(KeyCode::End),
        ascii_lowercase(s) == "pageup"@ || ascii_lowercase(s) == "pgup"@ ==> key_code_of(s) == Some(KeyCode::PageUp),
        ascii_lowercase(s) == "pagedown"@ || ascii_lowercase(s) == "pgdown"@ ==> key_code_of(s) == Some(KeyCode::PageDown),
{
    reveal_strlit("enter");
    reveal_strlit("return");
    reveal_strlit("esc");
    reveal_strlit("escape");
    reveal_strlit("tab");
    reveal_strlit("backspace");
    reveal_strlit("back");
    reveal_strlit("delete");
    reveal_strlit("del");
    reveal_strlit("space");
    reveal_strlit("up");
    reveal_strlit("down");
    reveal_strlit("left");
    reveal_strlit("right");
    reveal_strlit("home");
    reveal_strlit("end");
    reveal_strlit("pageup");
    reveal_strlit("pgup");
    reveal_strlit("pagedown");
    reveal_strlit("pgdown");
    assert("return"@.len() != "enter"@.len());
    assert("esc"@.len() != "enter"@.len());
    assert("esc"@.len() != "return"@.len());
    assert("escape"@.len() != "enter"@.len());
    assert("escape"@[0] != "return"@[0]);
    assert("escape"@.len() != "esc"@.len());
    assert("tab"@.len() != "enter"@.len());
    assert("tab"@.len() != "return"@.len());
    assert("tab"@[0] != "esc"@[0]);
    assert("tab"@.len() != "escape"@.len());
    assert("backspace"@.len() != "enter"@.len());
    assert("backspace"@.len() != "return"@.len());
    assert("backspace"@.len() != "esc"@.len());
    assert("backspace"@.len() != "escape"@.len());
    assert("backspace"@.len() != "tab"@.len());
    assert("back"@.len() != "enter"@.len());
    assert("back"@.len() != "return"@.len());
    assert("back"@.len() != "esc"@.len());
    assert("back"@.len() != "escape"@.len());
    assert("back"@.len() != "tab"@.len());
    assert("back"@.len() != "backspace"@.len());
    assert("delete"@.len() != "enter"@.len());
    assert("delete"@[0] != "return"@[0]);
    assert("delete"@.len() != "esc"@.len());
    assert("delete"@[0] != "escape"@[0]);
    assert("delete"@.len() != "tab"@.len());
    assert("delete"@.len() != "backspace"@.len());
    assert("delete"@.len() != "back"@.len());
    assert("del"@.len() != "enter"@.len());
    assert("del"@.len() != "return"@.len());
    assert("del"@[0] != "esc"@[0]);
    assert("del"@.len() != "escape"@.len());
    assert("del"@[0] != "tab"@[0]);
    assert("del"@.len() != "backspace"@.len());
    assert("del"@.len() != "back"@.len());
    assert("del"@.len() != "delete"@.len());
    assert("space"@[0] != "enter"@[0]);
    assert("space"@.len() != "return"@.len());
    assert("space"@.len() != "esc"@.len());
    assert("space"@.len() != "escape"@.len());
    assert("space"@.len() != "tab"@.len());
    assert("space"@.len() != "backspace"@.len());
    assert("space"@.len() != "back"@.len());
    assert("space"@.len() != "delete"@.len());
    assert("space"@.len() != "del"@.len());
    assert("up"@.len() != "enter"@.len());
    assert("up"@.len() != "return"@.len());
    assert("up"@.len() != "esc"@.len());
    assert("up"@.len() != "escape"@.len());
    assert("up"@.len() != "tab"@.len());
    assert("up"@.len() != "backspace"@.len());
    assert("up"@.len() != "back"@.len());
    assert("up"@.len() != "delete"@.len());
    assert("up"@.len() != "del"@.len());
    assert("up"@.len() != "space"@.len());
    assert("down"@.len() != "enter"@.len());
    assert("down"@.len() != "return"@.len());
    assert("down"@.len() != "esc"@.len());
    assert("down"@.len() != "escape"@.len());
    assert("down"@.len() != "tab"@.len());
    assert("down"@.len() != "backspace"@.len());
    assert("down"@[0] != "back"@[0]);
    assert("down"@.len() != "delete"@.len());
    assert("down"@.len() != "del"@.len());
    assert("down"@.len() != "space"@.len());
    assert("down"@.len() != "up"@.len());
    assert("left"@.len() != "enter"@.len());
    assert("left"@.len() != "return"@.len());
    assert("left"@.len() != "esc"@.len());
    assert("left"@.len() != "escape"@.len());
    assert("left"@.len() != "tab"@.len());
    assert("left"@.len() != "backspace"@.len());
    assert("left"@[0] != "back"@[0]);
    assert("left"@.len() != "delete"@.len());
    assert("left"@.len() != "del"@.len());
    assert("left"@.len() != "space"@.len());
    assert("left"@.len() != "up"@.len());
    assert("left"@[0] != "down"@[0]);
    assert("right"@[0] != "enter"@[0]);
    assert("right"@.len() != "return"@.len());
    assert("right"@.len() != "esc"@.len());
    assert("right"@.len() != "escape"@.len());
    assert("right"@.len() != "tab"@.len());
    assert("right"@.len() != "backspace"@.len());
    assert("right"@.len() != "back"@.len());
    assert("right"@.len() != "delete"@.len());
    assert("right"@.len() != "del"@.len());
    assert("right"@[0] != "space"@[0]);
    assert("right"@.len() != "up"@.len());
    assert("right"@.len() != "down"@.len());
    assert("right"@.len() != "left"@.len());
    assert("home"@.len() != "enter"@.len());
    assert("home"@.len() != "return"@.len());
    assert("home"@.len() != "esc"@.len());
    assert("home"@.len() != "escape"@.len());
    assert("home"@.len() != "tab"@.len());
    assert("home"@.len() != "backspace"@.len());
    assert("home"@[0] != "back"@[0]);
    assert("home"@.len() != "delete"@.len());
    assert("home"@.len() != "del"@.len());
    assert("home"@.len() != "space"@.len());
    assert("home"@.len() != "up"@.len());
    assert("home"@[0] != "down"@[0]);
    assert("home"@[0] != "left"@[0]);
    assert("home"@.len() != "right"@.len());
    assert("end"@.len() != "enter"@.len());
    assert("end"@.len() != "return"@.len());
    assert("end"@[1] != "esc"@[1]);
    assert("end"@.len() != "escape"@.len());
    assert("end"@[0] != "tab"@[0]);
    assert("end"@.len() != "backspace"@.len());
    assert("end"@.len() != "back"@.len());
    assert("end"@.len() != "delete"@.len());
    assert("end"@[0] != "del"@[0]);
    assert("end"@.len() != "space"@.len());
    assert("end"@.len() != "up"@.len());
    assert("end"@.len() != "down"@.len());
    assert("end"@.len() != "left"@.len());
    assert("end"@.len() != "right"@.len());
    assert("end"@.len() != "home"@.len());
    assert("pageup"@.len() != "enter"@.len());
    assert("pageup"@[0] != "return"@[0]);
    assert("pageup"@.len() != "esc"@.len());
    assert("pageup"@[0] != "escape"@[0]);
    assert("pageup"@.len() != "tab"@.len());
    assert("pageup"@.len() != "backspace"@.len());
    assert("pageup"@.len() != "back"@.len());
    assert("pageup"@[0] != "delete"@[0]);
    assert("pageup"@.len() != "del"@.len());
    assert("pageup"@.len() != "space"@.len());
    assert("pageup"@.len() != "up"@.len());
    assert("pageup"@.len() != "down"@.len());
    assert("pageup"@.len() != "left"@.len());
    assert("pageup"@.len() != "right"@.len());
    assert("pageup"@.len() != "home"@.len());
    assert("pageup"@.len() != "end"@.len());
    assert("pgup"@.len() != "enter"@.len());
    assert("pgup"@.len() != "return"@.len());
    assert("pgup"@.len() != "esc"@.len());
    assert("pgup"@.len() != "escape"@.len());
    assert("pgup"@.len() != "tab"@.len());
    assert("pgup"@.len() != "backspace"@.len());
    assert("pgup"@[0] != "back"@[0]);
    assert("pgup"@.len() != "delete"@.len());
    assert("pgup"@.len() != "del"@.len());
    assert("pgup"@.len() != "space"@.len());
    assert("pgup"@.len() != "up"@.len());
    assert("pgup"@[0] != "down"@[0]);
    assert("pgup"@[0] != "left"@[0]);
    assert("pgup"@.len() != "right"@.len());
    assert("pgup"@[0] != "home"@[0]);
    assert("pgup"@.len() != "end"@.len());
    assert("pgup"@.len() != "pageup"@.len());
    assert("pagedown"@.len() != "enter"@.len());
    assert("pagedown"@.len() != "return"@.len());
    assert("pagedown"@.len() != "esc"@.len());
    assert("pagedown"@.len() != "escape"@.len());
    assert("pagedown"@.len() != "tab"@.len());
    assert("pagedown"@.len() != "backspace"@.len());
    assert("pagedown"@.len() != "back"@.len());
    assert("pagedown"@.len() != "delete"@.len());
    assert("pagedown"@.len() != "del"@.len());
    assert("pagedown"@.len() != "space"@.len());
    assert("pagedown"@.len() != "up"@.len());
    assert("pagedown"@.len() != "down"@.len());
    assert("pagedown"@.len() != "left"@.len());
    assert("pagedown"@.len() != "right"@.len());
    assert("pagedown"@.len() != "home"@.len());
    assert("pagedown"@.len() != "end"@.len());
    assert("pagedown"@.len() != "pageup"@.len());
    assert("pagedown"@.len() != "pgup"@.len());
    assert("pgdown"@.len() != "enter"@.len());
    assert("pgdown"@[0] != "return"@[0]);
    assert("pgdown"@.len() != "esc"@.len());
    assert("pgdown"@[0] != "escape"@[0]);
    assert("pgdown"@.len() != "tab"@.len());
    assert("pgdown"@.len() != "backspace"@.len());
    assert("pgdown"@.len() != "back"@.len());
    assert("pgdown"@[0] != "delete"@[0]);
    assert("pgdown"@.len() != "del"@.len());
    assert("pgdown"@.len() != "space"@.len());
    assert("pgdown"@.len() != "up"@.len());
    assert("pgdown"@.len() != "down"@.len());
    assert("pgdown"@.len() != "left"@.len());
    assert("pgdown"@.len() != "right"@.len());
    assert("pgdown"@.len() != "home"@.len());
    assert("pgdown"@.len() != "end"@.len());
    assert("pgdown"@[1] != "pageup"@[1]);
    assert("pgdown"@.len() != "pgup"@.len());
    assert("pgdown"@.len() != "pagedown"@.len());
    assert(lowercase(s) == ascii_lowercase(s));
}

/// Whether a character is an ASCII digit.
pub open spec fn is_ascii_digit(c: char) -> bool {
    48 <= (c as u32) <= 57
}

/// The value of a string of decimal digits.
pub open spec fn digits_value(t: Seq<char>) -> nat
    decreases t.len(),
{
    if t.len() == 0 {
        0
    } else {
        digits_value(t.drop_last()) * 10 + ((t.last() as u32) - 48) as nat
    }
}

/// The text without one leading `+`.
pub open spec fn sign_stripped(t: Seq<char>) -> Seq<char> {
    if t.len() > 0 && t[0] == '+' {
        t.drop_first()
    } else {
        t
    }
}

/// Whether every character is an ASCII digit.
pub open spec fn all_ascii_digits(b: Seq<char>) -> bool {
    forall|i: int| 0 <= i < b.len() ==> is_ascii_digit(#[trigger] b[i])
}

/// What `str::parse::<u8>` gives: an optional `+`, then at least one
/// decimal digit and nothing else, with a value up to 255.
pub open spec fn parse_u8(t: Seq<char>) -> Option<u8> {
    let body = sign_stripped(t);
    if body.len() > 0 && all_ascii_digits(body) && digits_value(body) <= 255 {
        Some(digits_value(body) as u8)
    } else {
        None
    }
}

/// The key named by `s`: a special key name (any case), a function key
/// `F1` to `F12` (any case of the `f`), or a single ASCII character, kept
/// as it is.
pub open spec fn key_code_of(s: Seq<char>) -> Option<KeyCode> {
    let n = lowercase(s);
    match special_key_of_name(n) {
        Some(k) => Some(k),
        None => {
            if n.len() > 0 && n[0] == 'f' && s.len() >= 1 && (match parse_u8(s.subrange(1, s.len() as int)) {
                Some(v) => 1 <= v <= 12,
                None => false,
            }) {
                Some(KeyCode::F(parse_u8(s.subrange(1, s.len() as int)).unwrap()))
            } else if s.len() == 1 && (s[0] as u32) < 128 {
                Some(KeyCode::Char(s[0]))
            } else {
                None
            }
        },
    }
}

/// The modifier bits of `parts`, in order; the first unknown modifier is the
/// error.
pub open spec fn modifiers_of(parts: Seq<Seq<char>>) -> Result<u8, KeyParseFailure>
    decreases parts.len(),
{
    if parts.len() == 0 {
        Ok(0)
    } else {
        match modifiers_of(parts.drop_last()) {
            Err(e) => Err(e),
            Ok(bits) => match modifier_of_name(lowercase(parts.last())) {
                Some(m) => Ok(bits | m),
                None => Err(KeyParseFailure::UnknownModifier(parts.last())),
            },
        }
    }
}

/// The trimmed `+`-separated parts of a pattern.
pub open spec fn pattern_parts(t: Seq<char>) -> Seq<Seq<char>> {
    split_on(t, |c: char| c == '+').map_values(|p: Seq<char>| trimmed(p))
}

/// Once a prefix of the modifier parts fails, the whole list fails the same
/// way.
proof fn lemma_modifiers_error_prefix(ps: Seq<Seq<char>>, k: int)
    requires
        0 <= k <= ps.len(),
        modifiers_of(ps.subrange(0, k)) is Err,
    ensures
        modifiers_of(ps) == modifiers_of(ps.subrange(0, k)),
    decreases ps.len() - k,
{
    if k == ps.len() {
        assert(ps.subrange(0, k) =~= ps);
    } else {
        assert(ps.drop_last().subrange(0, k) =~= ps.subrange(0, k));
        lemma_modifiers_error_prefix(ps.drop_last(), k);
    }
}

/// Once a prefix of the words fails, the whole list fails the same way.
proof fn lemma_patterns_error_prefix(ws: Seq<Seq<char>>, k: int)
    requires
        0 <= k <= ws.len(),
        patterns_of(ws.subrange(0, k)) is Err,
    ensures
        patterns_of(ws) == patterns_of(ws.subrange(0, k)),
    decreases ws.len() - k,
{
    if k == ws.len() {
        assert(ws.subrange(0, k) =~= ws);
    } else {
        assert(ws.drop_last().subrange(0, k) =~= ws.subrange(0, k));
        lemma_patterns_error_prefix(ws.drop_last(), k);
    }
}

/// What parsing one key pattern gives.
pub open spec fn pattern_of_text(s: Seq<char>) -> Result<KeyPattern, KeyParseFailure> {
    let t = trimmed(s);
    let parts = pattern_parts(t);
    if t.len() == 0 {
        Err(KeyParseFailure::EmptyPattern)
    } else if parts.len() == 0 || exists|i: int| 0 <= i < parts.len() && #[trigger] parts[i].len() == 0 {
        Err(KeyParseFailure::InvalidFormat(t))
    } else {
        match modifiers_of(parts.drop_last()) {
            Err(e) => Err(e),
            Ok(bits) => match key_code_of(parts.last()) {
                Some(k) => Ok(KeyPattern { code: k, modifiers: KeyModifiers { bits } }),
                None => Err(KeyParseFailure::UnknownKey(parts.last())),
            },
        }
    }
}

/// The patterns of the words, in order; the first error stops.
pub open spec fn patterns_of(ws: Seq<Seq<char>>) -> Result<Seq<KeyPattern>, KeyParseFailure>
    decreases ws.len(),
{
    if ws.len() == 0 {
        Ok(Seq::empty())
    } else {
        match patterns_of(ws.drop_last()) {
            Err(e) => Err(e),
            Ok(ps) => match pattern_of_text(ws.last()) {
                Ok(p) => Ok(ps.push(p)),
                Err(e) => Err(e),
            },
        }
    }
}

/// What parsing a key sequence gives.
pub open spec fn sequence_of_text(s: Seq<char>) -> Result<Seq<KeyPattern>, KeyParseFailure> {
    let t = trimmed(s);
    if t.len() == 0 {
        Err(KeyParseFailure::EmptyInput)
    } else {
        match patterns_of(words(t)) {
            Err(e) => Err(e),
            Ok(ps) => if ps.len() == 0 {
                Err(KeyParseFailure::EmptyInput)
            } else {
                Ok(ps)
            },
        }
    }
}

/// The modifier bit for a lowercase modifier name.
pub fn modifier_from_name(n: &str) -> (r: Option<u8>)
    ensures
        r == modifier_of_name(n@),
{
    if str_eq(n, "ctrl") || str_eq(n, "control") {
        Some(2)
    } else if str_eq(n, "shift") {
        Some(1)
    } else if str_eq(n, "alt") {
        Some(4)
    } else if str_eq(n, "super") || str_eq(n, "cmd") || str_eq(n, "command") {
        Some(8)
    } else {
        None
    }
}

/// The special key for a lowercase key name.
pub fn special_key_from_name(n: &str) -> (r: Option<KeyCode>)
    ensures
        r == special_key_of_name(n@),
{
    if str_eq(n, "enter") || str_eq(n, "return") {
        Some(KeyCode::Enter)
    } else if str_eq(n, "esc") || str_eq(n, "escape") {
        Some(KeyCode::Esc)
    } else if str_eq(n, "tab") {
        Some(KeyCode::Tab)
    } else if str_eq(n, "backspace") || str_eq(n, "back") {
        Some(KeyCode::Backspace)
    } else if str_eq(n, "delete") || str_eq(n, "del") {
        Some(KeyCode::Delete)
    } else if str_eq(n, "space") {
        Some(KeyCode::Char(' '))
    } else if str_eq(n, "up") {
        Some(KeyCode::Up)
    } else if str_eq(n, "down") {
        Some(KeyCode::Down)
    } else if str_eq(n, "left") {
        Some(KeyCode::Left)
    } else if str_eq(n, "right") {
        Some(KeyCode::Right)
    } else if str_eq(n, "home") {
        Some(KeyCode::Home)
    } else if str_eq(n, "end") {
        Some(KeyCode::End)
    } else if str_eq(n, "pageup") || str_eq(n, "pgup") {
        Some(KeyCode::PageUp)
    } else if str_eq(n, "pagedown") || str_eq(n, "pgdown") {
        Some(KeyCode::PageDown)
    } else {
        None
    }
}

/// Parses the characters of `s` from index `from` as a `u8`, as
/// `str::parse::<u8>` does.
pub fn parse_u8_from(s: &str, from: usize) -> (r: Option<u8>)
    requires
        from <= s@.len(),
    ensures
        r == parse_u8(s@.subrange(from as int, s@.len() as int)),
{
    let n = char_len(s);
    let ghost t = s@.subrange(from as int, n as int);
    let mut start = from;
    if from < n && s.get_char(from) == '+' {
        start = from + 1;
    }
    let ghost body = s@.subrange(start as int, n as int);
    assert(body =~= sign_stripped(t));
    if start == n {
        assert(body.len() == 0);
        return None;
    }
    let mut acc: u32 = 0;
    let mut i = start;
    assert(body.subrange(0, 0) =~= Seq::<char>::empty());
    while i < n
        invariant
            n == s@.len(),
            from <= start <= i <= n,
            start < n,
            body == s@.subrange(start as int, n as int),
            t == s@.subrange(from as int, n as int),
            body == sign_stripped(t),
            forall|j: int| 0 <= j < i - start ==> is_ascii_digit(#[trigger] body[j]),
            acc == (if digits_value(body.subrange(0, i - start)) < 256 {
                digits_value(body.subrange(0, i - start))
            } else {
                256
            }),
        decreases n - i,
    {
        let c = s.get_char(i);
        let v = c as u32;
        if v < 48 || v > 57 {
            proof {
                let j = i - start;
                assert(body[j] == c);
                assert(!is_ascii_digit(body[j]));
                assert(!all_ascii_digits(body));
                assert(parse_u8(t) is None);
            }
            return None;
        }
        let ghost pre = body.subrange(0, i - start);
        let ghost next = body.subrange(0, i + 1 - start);
        assert(next.drop_last() =~= pre);
        assert(next.last() == c);
        if acc < 256 {
            let nv = acc * 10 + (v - 48);
            acc = if nv < 256 {
                nv
            } else {
                256
            };
        }
        i = i + 1;
    }
    assert(body.subrange(0, n - start) =~= body);
    if acc <= 255 {
        Some(acc as u8)
    } else {
        None
    }
}

/// Parses a modifier name (Ctrl/Control, Shift, Alt, Super/Cmd/Command, any
/// case).
pub fn parse_modifier(s: &str) -> (r: Result<KeyModifiers, ParseError>)
    ensures
        match modifier_of_name(lowercase(s@)) {
            Some(b) => r == Ok::<KeyModifiers, ParseError>(KeyModifiers { bits: b }),
            None => r matches Err(e) && e@ == KeyParseFailure::UnknownModifier(s@),
        },
{
    let lower = to_lowercase(s);
    match modifier_from_name(lower.as_str()) {
        Some(b) => Ok(KeyModifiers { bits: b }),
        None => Err(ParseError::UnknownModifier(String::from_str(s))),
    }
}

/// Parses a key name: special keys, function keys F1 to F12, or a single
/// ASCII character.
pub fn parse_key_code(s: &str) -> (r: Result<KeyCode, ParseError>)
    ensures
        match key_code_of(s@) {
            Some(k) => r == Ok::<KeyCode, ParseError>(k),
            None => r matches Err(e) && e@ == KeyParseFailure::UnknownKey(s@),
        },
{
    let lower = to_lowercase(s);
    if let Some(k) = special_key_from_name(lower.as_str()) {
        return Ok(k);
    }
    let n = char_len(s);
    if char_len(lower.as_str()) > 0 && lower.as_str().get_char(0) == 'f' && n >= 1 {
        if let Some(num) = parse_u8_from(s, 1) {
            if 1 <= num && num <= 12 {
                return Ok(KeyCode::F(num));
            }
        }
    }
    if n == 1 {
        let c = s.get_char(0);
        if (c as u32) < 128 {
            return Ok(KeyCode::Char(c));
        }
    }
    Err(ParseError::UnknownKey(String::from_str(s)))
}

/// Parses one key pattern such as `"Ctrl+S"` or `"Enter"`.
pub fn parse_key_pattern(s: &str) -> (r: Result<KeyPattern, ParseError>)
    ensures
        match pattern_of_text(s@) {
            Ok(p) => r == Ok::<KeyPattern, ParseError>(p),
            Err(e) => r matches Err(err) && err@ == e,
        },
{
    let t = trim(s);
    if char_len(t) == 0 {
        return Err(ParseError::EmptyPattern);
    }
    let pieces = split_by(t, '+');
    let ghost pv = views_of(pieces@);
    let ghost parts = pattern_parts(t@);
    let mut trimmed_parts: Vec<String> = Vec::new();
    let mut i: usize = 0;
    while i < pieces.len()
        invariant
            t@ == trimmed(s@),
            t@.len() > 0,
            pv == views_of(pieces@),
            pv == split_on(t@, |c: char| c == '+'),
            parts == pattern_parts(t@),
            parts.len() == pieces@.len(),
            i <= pieces@.len(),
            trimmed_parts@.len() == i,
            forall|j: int| 0 <= j < i ==> (#[trigger] trimmed_parts@[j])@ == parts[j],
            forall|j: int| 0 <= j < i ==> (#[trigger] parts[j]).len() > 0,
        decreases pieces@.len() - i,
    {
        assert(pv[i as int] == pieces@[i as int]@);
        let p = trim(pieces[i].as_str());
        if char_len(p) == 0 {
            assert(parts[i as int].len() == 0);
            assert(t@ == trimmed(s@));
            assert(pattern_parts(trimmed(s@))[i as int].len() == 0);
            assert(exists|k: int|
                0 <= k < pattern_parts(trimmed(s@)).len() && #[trigger] pattern_parts(
                    trimmed(s@),
                )[k].len() == 0);
            return Err(ParseError::InvalidFormat(String::from_str(t)));
        }
        trimmed_parts.push(String::from_str(p));
        i = i + 1;
    }
    assert(!(exists|k: int| 0 <= k < parts.len() && #[trigger] parts[k].len() == 0));
    if trimmed_parts.len() == 0 {
        return Err(ParseError::InvalidFormat(String::from_str(t)));
    }
    let last = trimmed_parts.len() - 1;
    let ghost mods = parts.drop_last();
    let mut bits: u8 = 0;
    let mut k: usize = 0;
    assert(mods.subrange(0, 0) =~= Seq::<Seq<char>>::empty());
    while k < last
        invariant
            t@ == trimmed(s@),
            t@.len() > 0,
            parts == pattern_parts(t@),
            !(exists|q: int| 0 <= q < parts.len() && #[trigger] parts[q].len() == 0),
            last + 1 == trimmed_parts@.len(),
            parts.len() == trimmed_parts@.len(),
            mods == parts.drop_last(),
            forall|j: int| 0 <= j < trimmed_parts@.len() ==> (#[trigger] trimmed_parts@[j])@ == parts[j],
            k <= last,
            modifiers_of(mods.subrange(0, k as int)) == Ok::<u8, KeyParseFailure>(bits),
        decreases last - k,
    {
        assert(mods.subrange(0, k + 1).drop_last() =~= mods.subrange(0, k as int));
        assert(mods.subrange(0, k + 1).last() == trimmed_parts@[k as int]@);
        match parse_modifier(trimmed_parts[k].as_str()) {
            Ok(m) => {
                bits = bits | m.bits;
            },
            Err(e) => {
                proof {
                    lemma_modifiers_error_prefix(mods, k + 1);
                }
                return Err(e);
            },
        }
        k = k + 1;
    }
    assert(mods.subrange(0, last as int) =~= mods);
    assert(parts.last() == trimmed_parts@[last as int]@);
    match parse_key_code(trimmed_parts[last].as_str()) {
        Ok(code) => Ok(KeyPattern { code, modifiers: KeyModifiers { bits } }),
        Err(e) => Err(e),
    }
}

/// When a key binding is active.
#[derive(Debug, Clone, PartialEq, Eq)]
pub enum BindingContext {
    /// Active in Insert and Normal mode, not in Prompt mode.
    Global,
    /// Active only in the given mode.
    Mode(EditorMode),
    /// Active in any of the given modes.
    Modes(Vec<EditorMode>),
    /// A plugin's binding, active in the listed modes or, with no list, in
    /// every mode.
    Plugin { name: String, modes: Option<Vec<EditorMode>> },
}

/// A context with its lists as sequences.
pub enum ContextView {
    /// Active in Insert and Normal mode.
    Global,
    /// Active in one mode.
    Mode(EditorMode),
    /// Active in the listed modes.
    Modes(Seq<EditorMode>),
    /// A plugin's context.
    Plugin { name: Seq<char>, modes: Option<Seq<EditorMode>> },
}

impl View for BindingContext {
    type V = ContextView;

    open spec fn view(&self) -> ContextView {
        match self {
            BindingContext::Global => ContextView::Global,
            BindingContext::Mode(m) => ContextView::Mode(*m),
            BindingContext::Modes(v) => ContextView::Modes(v@),
            BindingContext::Plugin { name, modes } => ContextView::Plugin {
                name: name@,
                modes: match modes {
                    Some(v) => Some(v@),
                    None => None,
                },
            },
        }
    }
}

/// Two contexts are the same exactly when their views are equal.
pub proof fn lemma_same_context_is_view_equality(a: BindingContext, b: BindingContext)
    ensures
        same_context(a, b) == (a@ == b@),
{
}

/// Whether a context is active in mode `m`.
pub open spec fn context_active(c: BindingContext, m: EditorMode) -> bool {
    match c {
        BindingContext::Global => m != EditorMode::Prompt,
        BindingContext::Mode(x) => x == m,
        BindingContext::Modes(v) => v@.contains(m),
        BindingContext::Plugin { modes, .. } => match modes {
            None => true,
            Some(v) => v@.contains(m),
        },
    }
}

/// Whether two contexts are equal (same variant, same modes in the same
/// order, same plugin name).
pub open spec fn same_context(a: BindingContext, b: BindingContext) -> bool {
    match (a, b) {
        (BindingContext::Global, BindingContext::Global) => true,
        (BindingContext::Mode(x), BindingContext::Mode(y)) => x == y,
        (BindingContext::Modes(v), BindingContext::Modes(w)) => v@ == w@,
        (
            BindingContext::Plugin { name: n1, modes: m1 },
            BindingContext::Plugin { name: n2, modes: m2 },
        ) => n1@ == n2@ && match (m1, m2) {
            (None, None) => true,
            (Some(v), Some(w)) => v@ == w@,
            _ => false,
        },
        _ => false,
    }
}

fn modes_contain(v: &Vec<EditorMode>, m: EditorMode) -> (r: bool)
    ensures
        r == v@.contains(m),
{
    let mut i: usize = 0;
    while i < v.len()
        invariant
            i <= v@.len(),
            forall|j: int| 0 <= j < i ==> v@[j] != m,
        decreases v@.len() - i,
    {
        if v[i] == m {
            assert(v@[i as int] == m);
            return true;
        }
        i = i + 1;
    }
    false
}

fn modes_equal(v: &Vec<EditorMode>, w: &Vec<EditorMode>) -> (r: bool)
    ensures
        r == (v@ == w@),
{
    if v.len() != w.len() {
        return false;
    }
    let mut i: usize = 0;
    while i < v.len()
        invariant
            v@.len() == w@.len(),
            i <= v@.len(),
            forall|j: int| 0 <= j < i ==> v@[j] == w@[j],
        decreases v@.len() - i,
    {
        if v[i] != w[i] {
            return false;
        }
        i = i + 1;
    }
    assert(v@ =~= w@);
    true
}

impl BindingContext {
    /// Whether the binding is active in `current_mode`.
    pub fn is_active(&self, current_mode: EditorMode) -> (r: bool)
        ensures
            r == context_active(*self, current_mode),
    {
        match self {
            BindingContext::Global => current_mode != EditorMode::Prompt,
            BindingContext::Mode(mode) => *mode == current_mode,
            BindingContext::Modes(modes) => modes_contain(modes, current_mode),
            BindingContext::Plugin { modes, .. } => match modes {
                None => true,
                Some(mode_list) => modes_contain(mode_list, current_mode),
            },
        }
    }

    /// Whether two contexts are equal.
    pub fn same_as(&self, other: &BindingContext) -> (r: bool)
        ensures
            r == same_context(*self, *other),
    {
        match (self, other) {
            (BindingContext::Global, BindingContext::Global) => true,
            (BindingContext::Mode(x), BindingContext::Mode(y)) => *x == *y,
            (BindingContext::Modes(v), BindingContext::Modes(w)) => modes_equal(v, w),
            (
                BindingContext::Plugin { name: n1, modes: m1 },
                BindingContext::Plugin { name: n2, modes: m2 },
            ) => {
                if !str_eq(n1.as_str(), n2.as_str()) {
                    return false;
                }
                match (m1, m2) {
                    (None, None) => true,
                    (Some(v), Some(w)) => modes_equal(v, w),
                    _ => false,
                }
            },
            _ => false,
        }
    }
}

/// A key sequence bound to a command in a context, with a priority.
#[derive(Debug, Clone, PartialEq)]
pub struct KeyBinding {
    sequence: KeySequence,
    command: EditorCommand,
    context: BindingContext,
    priority: Priority,
}

impl KeyBinding {
    /// The bound key sequence.
    pub closed spec fn spec_sequence(&self) -> KeySequence {
        self.sequence
    }

    /// The bound command.
    pub closed spec fn spec_command(&self) -> EditorCommand {
        self.command
    }

    /// The context.
    pub closed spec fn spec_context(&self) -> BindingContext {
        self.context
    }

    /// The priority.
    pub closed spec fn spec_priority(&self) -> Priority {
        self.priority
    }

    /// A binding of `sequence` to `command` in `context` with `priority`.
    pub fn new(
        sequence: KeySequence,
        command: EditorCommand,
        context: BindingContext,
        priority: Priority,
    ) -> (r: Self)
        ensures
            r.spec_sequence() == sequence,
            r.spec_command() == command,
            r.spec_context() == context,
            r.spec_priority() == priority,
    {
        KeyBinding { sequence, command, context, priority }
    }

    /// The key sequence.
    pub fn sequence(&self) -> (r: &KeySequence)
        ensures
            *r == self.spec_sequence(),
    {
        &self.sequence
    }

    /// The command.
    pub fn command(&self) -> (r: &EditorCommand)
        ensures
            *r == self.spec_command(),
    {
        &self.command
    }

    /// The context.
    pub fn context(&self) -> (r: &BindingContext)
        ensures
            *r == self.spec_context(),
    {
        &self.context
    }

    /// The priority.
    pub fn priority(&self) -> (r: Priority)
        ensures
            r == self.spec_priority(),
    {
        self.priority
    }
}

} // verus!
