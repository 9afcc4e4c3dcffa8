//! The debug text of key sequences, binding contexts and commands, as the
//! derived `Debug` of the terminal library's keys and of these types prints
//! it: registration errors carry it.
use vstd::prelude::*;
use crate::editor::EditorMode;
use crate::textops::{decimal, push_char, push_decimal};
use super::command::EditorCommand;
use super::direction::Direction;
use super::keybinding::{BindingContext, ContextView, KeyPattern, KeySequence};
use super::keys::KeyCode;

verus! {

/// What `format!("{:?}", c)` gives for the character `c`: the character
/// between single quotes, escaped as `char::escape_debug` escapes it.
pub uninterp spec fn char_debug(c: char) -> Seq<char>;

/// What `format!("{:?}", s)` gives for a string with the characters `s`:
/// the characters between double quotes, escaped as `char::escape_debug`
/// escapes them.
pub uninterp spec fn debug_quoted(s: Seq<char>) -> Seq<char>;

/// Appends `format!("{:?}", c)`.
#[verifier::external_body]
fn push_char_debug(s: &mut String, c: char)
    ensures
        final(s)@ == old(s)@ + char_debug(c),
{
    s.push_str(&format!("{:?}", c))
}

/// Appends `format!("{:?}", text)`.
#[verifier::external_body]
pub(crate) fn push_quoted(s: &mut String, text: &str)
    ensures
        final(s)@ == old(s)@ + debug_quoted(text@),
{
    s.push_str(&format!("{:?}", text))
}

/// The items separated by `", "`, as a list's debug form separates them.
pub open spec fn comma_list(items: Seq<Seq<char>>) -> Seq<char>
    decreases items.len(),
{
    if items.len() == 0 {
        Seq::empty()
    } else if items.len() == 1 {
        items[0]
    } else {
        comma_list(items.drop_last()) + ", "@ + items.last()
    }
}

proof fn lemma_comma_list_step(items: Seq<Seq<char>>, i: int)
    requires
        0 <= i < items.len(),
    ensures
        comma_list(items.take(i + 1)) == comma_list(items.take(i)) + (if i > 0 {
            ", "@
        } else {
            Seq::<char>::empty()
        }) + items[i],
{
    assert(items.take(i + 1).drop_last() =~= items.take(i));
    if i == 0 {
        assert(comma_list(items.take(0)) == Seq::<char>::empty());
        assert(Seq::<char>::empty() + Seq::<char>::empty() + items[0] =~= items[0]);
    }
}

/// The debug name of a mode.
pub open spec fn mode_debug(m: EditorMode) -> Seq<char> {
    match m {
        EditorMode::Insert => "Insert"@,
        EditorMode::Normal => "Normal"@,
        EditorMode::Prompt => "Prompt"@,
    }
}

fn push_mode(s: &mut String, m: EditorMode)
    ensures
        final(s)@ == old(s)@ + mode_debug(m),
{
    match m {
        EditorMode::Insert => s.append("Insert"),
        EditorMode::Normal => s.append("Normal"),
        EditorMode::Prompt => s.append("Prompt"),
    }
}

/// The debug form of a list of modes: `[Insert, Normal]`.
pub open spec fn modes_debug(ms: Seq<EditorMode>) -> Seq<char> {
    "["@ + comma_list(ms.map_values(|m: EditorMode| mode_debug(m))) + "]"@
}

fn push_modes(s: &mut String, ms: &Vec<EditorMode>)
    ensures
        final(s)@ == old(s)@ + modes_debug(ms@),
{
    let ghost items = ms@.map_values(|m: EditorMode| mode_debug(m));
    let ghost start = s@;
    s.append("[");
    let mut i: usize = 0;
    assert(items.take(0) =~= Seq::<Seq<char>>::empty());
    while i < ms.len()
        invariant
            i <= ms@.len(),
            items == ms@.map_values(|m: EditorMode| mode_debug(m)),
            s@ == start + "["@ + comma_list(items.take(i as int)),
        decreases ms@.len() - i,
    {
        proof {
            lemma_comma_list_step(items, i as int);
        }
        if i > 0 {
            s.append(", ");
        }
        push_mode(s, ms[i]);
        i = i + 1;
    }
    assert(items.take(i as int) =~= items);
    s.append("]");
}

/// The debug name of a direction.
pub open spec fn direction_debug(d: Direction) -> Seq<char> {
    match d {
        Direction::Up => "Up"@,
        Direction::Down => "Down"@,
        Direction::Left => "Left"@,
        Direction::Right => "Right"@,
    }
}

fn push_direction(s: &mut String, d: Direction)
    ensures
        final(s)@ == old(s)@ + direction_debug(d),
{
    match d {
        Direction::Up => s.append("Up"),
        Direction::Down => s.append("Down"),
        Direction::Left => s.append("Left"),
        Direction::Right => s.append("Right"),
    }
}


/// The name of the media key at index `i` of the terminal library's list (the number itself past the list's end).
pub open spec fn media_key_name(i: u8) -> Seq<char> {
    if i == 0 {
        "Play"@
    } else if i == 1 {
        "Pause"@
    } else if i == 2 {
        "PlayPause"@
    } else if i == 3 {
        "Reverse"@
    } else if i == 4 {
        "Stop"@
    } else if i == 5 {
        "FastForward"@
    } else if i == 6 {
        "Rewind"@
    } else if i == 7 {
        "TrackNext"@
    } else if i == 8 {
        "TrackPrevious"@
    } else if i == 9 {
        "Record"@
    } else if i == 10 {
        "LowerVolume"@
    } else if i == 11 {
        "RaiseVolume"@
    } else if i == 12 {
        "MuteVolume"@
    } else {
        decimal(i as nat)
    }
}

fn push_media_key(s: &mut String, i: u8)
    ensures
        final(s)@ == old(s)@ + media_key_name(i),
{
    if i == 0 {
        s.append("Play");
    } else if i == 1 {
        s.append("Pause");
    } else if i == 2 {
        s.append("PlayPause");
    } else if i == 3 {
        s.append("Reverse");
    } else if i == 4 {
        s.append("Stop");
    } else if i == 5 {
        s.append("FastForward");
    } else if i == 6 {
        s.append("Rewind");
    } else if i == 7 {
        s.append("TrackNext");
    } else if i == 8 {
        s.append("TrackPrevious");
    } else if i == 9 {
        s.append("Record");
    } else if i == 10 {
        s.append("LowerVolume");
    } else if i == 11 {
        s.append("RaiseVolume");
    } else if i == 12 {
        s.append("MuteVolume");
    } else {
        push_decimal(s, i as usize);
    }
}

/// The name of the modifier key at index `i` of the terminal library's list (the number itself past the list's end).
pub open spec fn modifier_key_name(i: u8) -> Seq<char> {
    if i == 0 {
        "LeftShift"@
    } else if i == 1 {
        "LeftControl"@
    } else if i == 2 {
        "LeftAlt"@
    } else if i == 3 {
        "LeftSuper"@
    } else if i == 4 {
        "LeftHyper"@
    } else if i == 5 {
        "LeftMeta"@
    } else if i == 6 {
        "RightShift"@
    } else if i == 7 {
        "RightControl"@
    } else if i == 8 {
        "RightAlt"@
    } else if i == 9 {
        "RightSuper"@
    } else if i == 10 {
        "RightHyper"@
    } else if i == 11 {
        "RightMeta"@
    } else if i == 12 {
        "IsoLevel3Shift"@
    } else if i == 13 {
        "IsoLevel5Shift"@
    } else {
        decimal(i as nat)
    }
}

fn push_modifier_key(s: &mut String, i: u8)
    ensures
        final(s)@ == old(s)@ + modifier_key_name(i),
{
    if i == 0 {
        s.append("LeftShift");
    } else if i == 1 {
        s.append("LeftControl");
    } else if i == 2 {
        s.append("LeftAlt");
    } else if i == 3 {
        s.append("LeftSuper");
    } else if i == 4 {
        s.append("LeftHyper");
    } else if i == 5 {
        s.append("LeftMeta");
    } else if i == 6 {
        s.append("RightShift");
    } else if i == 7 {
        s.append("RightControl");
    } else if i == 8 {
        s.append("RightAlt");
    } else if i == 9 {
        s.append("RightSuper");
    } else if i == 10 {
        s.append("RightHyper");
    } else if i == 11 {
        s.append("RightMeta");
    } else if i == 12 {
        s.append("IsoLevel3Shift");
    } else if i == 13 {
        s.append("IsoLevel5Shift");
    } else {
        push_decimal(s, i as usize);
    }
}

/// The debug form of a key code, as the terminal library's key code prints it.
pub open spec fn key_code_debug(k: KeyCode) -> Seq<char> {
    match k {
        KeyCode::Backspace => "Backspace"@,
        KeyCode::Enter => "Enter"@,
        KeyCode::Left => "Left"@,
        KeyCode::Right => "Right"@,
        KeyCode::Up => "Up"@,
        KeyCode::Down => "Down"@,
        KeyCode::Home => "Home"@,
        KeyCode::End => "End"@,
        KeyCode::PageUp => "PageUp"@,
        KeyCode::PageDown => "PageDown"@,
        KeyCode::Tab => "Tab"@,
        KeyCode::BackTab => "BackTab"@,
        KeyCode::Delete => "Delete"@,
        KeyCode::Insert => "Insert"@,
        KeyCode::Null => "Null"@,
        KeyCode::Esc => "Esc"@,
        KeyCode::CapsLock => "CapsLock"@,
        KeyCode::ScrollLock => "ScrollLock"@,
        KeyCode::NumLock => "NumLock"@,
        KeyCode::PrintScreen => "PrintScreen"@,
        KeyCode::Pause => "Pause"@,
        KeyCode::Menu => "Menu"@,
        KeyCode::KeypadBegin => "KeypadBegin"@,
        KeyCode::F(n) => "F("@ + decimal(n as nat) + ")"@,
        KeyCode::Char(c) => "Char("@ + char_debug(c) + ")"@,
        KeyCode::Media(i) => "Media("@ + media_key_name(i) + ")"@,
        KeyCode::Modifier(i) => "Modifier("@ + modifier_key_name(i) + ")"@,
    }
}

fn push_key_code(s: &mut String, k: KeyCode)
    ensures
        final(s)@ == old(s)@ + key_code_debug(k),
{
    match k {
        KeyCode::Backspace => s.append("Backspace"),
        KeyCode::Enter => s.append("Enter"),
        KeyCode::Left => s.append("Left"),
        KeyCode::Right => s.append("Right"),
        KeyCode::Up => s.append("Up"),
        KeyCode::Down => s.append("Down"),
        KeyCode::Home => s.append("Home"),
        KeyCode::End => s.append("End"),
        KeyCode::PageUp => s.append("PageUp"),
        KeyCode::PageDown => s.append("PageDown"),
        KeyCode::Tab => s.append("Tab"),
        KeyCode::BackTab => s.append("BackTab"),
        KeyCode::Delete => s.append("Delete"),
        KeyCode::Insert => s.append("Insert"),
        KeyCode::Null => s.append("Null"),
        KeyCode::Esc => s.append("Esc"),
        KeyCode::CapsLock => s.append("CapsLock"),
        KeyCode::ScrollLock => s.append("ScrollLock"),
        KeyCode::NumLock => s.append("NumLock"),
        KeyCode::PrintScreen => s.append("PrintScreen"),
        KeyCode::Pause => s.append("Pause"),
        KeyCode::Menu => s.append("Menu"),
        KeyCode::KeypadBegin => s.append("KeypadBegin"),
        KeyCode::F(n) => {
            s.append("F(");
            push_decimal(s, n as usize);
            s.append(")");
        },
        KeyCode::Char(c) => {
            s.append("Char(");
            push_char_debug(s, c);
            s.append(")");
        },
        KeyCode::Media(i) => {
            s.append("Media(");
            push_media_key(s, i);
            s.append(")");
        },
        KeyCode::Modifier(i) => {
            s.append("Modifier(");
            push_modifier_key(s, i);
            s.append(")");
        },
    }
}

/// `acc` with the flag `name` added when `set`: after a `" | "` unless
/// `acc` is still empty.
pub open spec fn append_flag(acc: Seq<char>, set: bool, name: Seq<char>) -> Seq<char> {
    if !set {
        acc
    } else if acc.len() == 0 {
        name
    } else {
        acc + " | "@ + name
    }
}

fn push_flag(acc: &mut String, set: bool, name: &str)
    ensures
        final(acc)@ == append_flag(old(acc)@, set, name@),
{
    if set {
        if acc.as_str().unicode_len() == 0 {
            acc.append(name);
            assert(acc@ =~= name@);
        } else {
            acc.append(" | ");
            acc.append(name);
        }
    }
}

/// The hexadecimal text of the bits above the named flags.
pub open spec fn extra_bits_hex(x: u8) -> Seq<char> {
    if x == 0x40 {
        "0x40"@
    } else if x == 0x80 {
        "0x80"@
    } else {
        "0xc0"@
    }
}

/// The flags of a modifier set as the terminal library's flag type prints
/// them: the names of the set flags in declaration order, joined by
/// `" | "`, then any other bits in hexadecimal; `0x0` for the empty set.
pub open spec fn flags_text(bits: u8) -> Seq<char> {
    if bits == 0 {
        "0x0"@
    } else {
        let a = append_flag(Seq::empty(), bits & 1u8 != 0, "SHIFT"@);
        let a = append_flag(a, bits & 2u8 != 0, "CONTROL"@);
        let a = append_flag(a, bits & 4u8 != 0, "ALT"@);
        let a = append_flag(a, bits & 8u8 != 0, "SUPER"@);
        let a = append_flag(a, bits & 16u8 != 0, "HYPER"@);
        let a = append_flag(a, bits & 32u8 != 0, "META"@);
        append_flag(a, bits & 0xc0u8 != 0, extra_bits_hex(bits & 0xc0u8))
    }
}

fn flags_string(bits: u8) -> (r: String)
    ensures
        r@ == flags_text(bits),
{
    if bits == 0 {
        return String::from_str("0x0");
    }
    let mut a = String::new();
    assert(a@ =~= Seq::<char>::empty());
    push_flag(&mut a, bits & 1u8 != 0, "SHIFT");
    push_flag(&mut a, bits & 2u8 != 0, "CONTROL");
    push_flag(&mut a, bits & 4u8 != 0, "ALT");
    push_flag(&mut a, bits & 8u8 != 0, "SUPER");
    push_flag(&mut a, bits & 16u8 != 0, "HYPER");
    push_flag(&mut a, bits & 32u8 != 0, "META");
    let extra = bits & 0xc0u8;
    let hex = if extra == 0x40 {
        "0x40"
    } else if extra == 0x80 {
        "0x80"
    } else {
        "0xc0"
    };
    push_flag(&mut a, extra != 0, hex);
    a
}

/// The debug form of a key pattern:
/// `KeyPattern { code: Char('s'), modifiers: KeyModifiers(CONTROL) }`.
pub open spec fn pattern_debug(p: KeyPattern) -> Seq<char> {
    "KeyPattern { code: "@ + key_code_debug(p.code) + ", modifiers: KeyModifiers("@ + flags_text(
        p.modifiers.bits,
    ) + ") }"@
}

fn push_pattern(s: &mut String, p: KeyPattern)
    ensures
        final(s)@ == old(s)@ + pattern_debug(p),
{
    s.append("KeyPattern { code: ");
    push_key_code(s, p.code);
    s.append(", modifiers: KeyModifiers(");
    let f = flags_string(p.modifiers.bits);
    s.append(f.as_str());
    s.append(") }");
}

/// The debug form of a key sequence with the patterns `ps`:
/// `KeySequence { patterns: [..] }`.
pub open spec fn key_sequence_debug(ps: Seq<KeyPattern>) -> Seq<char> {
    "KeySequence { patterns: ["@ + comma_list(ps.map_values(|p: KeyPattern| pattern_debug(p)))
        + "] }"@
}

/// The debug text of a key sequence.
pub fn sequence_debug_text(seq: &KeySequence) -> (r: String)
    ensures
        r@ == key_sequence_debug(seq@),
{
    let ps = seq.patterns();
    let ghost items = ps@.map_values(|p: KeyPattern| pattern_debug(p));
    let mut s = String::from_str("KeySequence { patterns: [");
    let mut i: usize = 0;
    assert(items.take(0) =~= Seq::<Seq<char>>::empty());
    assert(s@ =~= "KeySequence { patterns: ["@ + comma_list(items.take(0)));
    while i < ps.len()
        invariant
            i <= ps@.len(),
            items == ps@.map_values(|p: KeyPattern| pattern_debug(p)),
            s@ == "KeySequence { patterns: ["@ + comma_list(items.take(i as int)),
        decreases ps@.len() - i,
    {
        proof {
            lemma_comma_list_step(items, i as int);
        }
        if i > 0 {
            s.append(", ");
        }
        push_pattern(&mut s, ps[i]);
        i = i + 1;
    }
    assert(items.take(i as int) =~= items);
    s.append("] }");
    s
}

/// The debug form of a binding context with the view `c`, as the derived
/// `Debug` of the context prints it.
pub open spec fn context_debug(c: ContextView) -> Seq<char> {
    match c {
        ContextView::Global => "Global"@,
        ContextView::Mode(m) => "Mode("@ + mode_debug(m) + ")"@,
        ContextView::Modes(ms) => "Modes("@ + modes_debug(ms) + ")"@,
        ContextView::Plugin { name, modes } => "Plugin { name: "@ + debug_quoted(name)
            + ", modes: "@ + match modes {
            None => "None"@,
            Some(ms) => "Some("@ + modes_debug(ms) + ")"@,
        } + " }"@,
    }
}

/// The debug text of a binding context.
pub fn context_debug_text(context: &BindingContext) -> (r: String)
    ensures
        r@ == context_debug(context@),
{
    let mut s = String::new();
    assert(s@ =~= Seq::<char>::empty());
    match context {
        BindingContext::Global => s.append("Global"),
        BindingContext::Mode(m) => {
            s.append("Mode(");
            push_mode(&mut s, *m);
            s.append(")");
        },
        BindingContext::Modes(ms) => {
            s.append("Modes(");
            push_modes(&mut s, ms);
            s.append(")");
        },
        BindingContext::Plugin { name, modes } => {
            s.append("Plugin { name: ");
            push_quoted(&mut s, name.as_str());
            s.append(", modes: ");
            match modes {
                None => s.append("None"),
                Some(ms) => {
                    s.append("Some(");
                    push_modes(&mut s, ms);
                    s.append(")");
                },
            }
            s.append(" }");
        },
    }
    s
}


/// The debug form of a command, as its derived `Debug` prints it.
pub open spec fn command_debug(c: EditorCommand) -> Seq<char> {
    match c {
        EditorCommand::DeleteChar => "DeleteChar"@,
        EditorCommand::DeleteForward => "DeleteForward"@,
        EditorCommand::MoveToLineStart => "MoveToLineStart"@,
        EditorCommand::MoveToLineEnd => "MoveToLineEnd"@,
        EditorCommand::PageUp => "PageUp"@,
        EditorCommand::PageDown => "PageDown"@,
        EditorCommand::InsertTab => "InsertTab"@,
        EditorCommand::Save => "Save"@,
        EditorCommand::Quit => "Quit"@,
        EditorCommand::PromptDeleteChar => "PromptDeleteChar"@,
        EditorCommand::AcceptPrompt => "AcceptPrompt"@,
        EditorCommand::CancelPrompt => "CancelPrompt"@,
        EditorCommand::SelectLeft => "SelectLeft"@,
        EditorCommand::SelectRight => "SelectRight"@,
        EditorCommand::SelectUp => "SelectUp"@,
        EditorCommand::SelectDown => "SelectDown"@,
        EditorCommand::SelectLineStart => "SelectLineStart"@,
        EditorCommand::SelectLineEnd => "SelectLineEnd"@,
        EditorCommand::SelectAll => "SelectAll"@,
        EditorCommand::Copy => "Copy"@,
        EditorCommand::Cut => "Cut"@,
        EditorCommand::Paste => "Paste"@,
        EditorCommand::InsertChar(ch) => "InsertChar("@ + char_debug(ch) + ")"@,
        EditorCommand::PromptInsertChar(ch) => "PromptInsertChar("@ + char_debug(ch) + ")"@,
        EditorCommand::MoveCursor(d) => "MoveCursor("@ + direction_debug(d) + ")"@,
        EditorCommand::ChangeMode(m) => "ChangeMode("@ + mode_debug(m) + ")"@,
        EditorCommand::PluginCommand { plugin_name, command_name } => "PluginCommand { plugin_name: "@
            + debug_quoted(plugin_name@) + ", command_name: "@ + debug_quoted(command_name@) + " }"@,
    }
}

/// The debug text of a command.
pub fn command_debug_text(command: &EditorCommand) -> (r: String)
    ensures
        r@ == command_debug(*command),
{
    let mut s = String::new();
    assert(s@ =~= Seq::<char>::empty());
    match command {
        EditorCommand::DeleteChar => s.append("DeleteChar"),
        EditorCommand::DeleteForward => s.append("DeleteForward"),
        EditorCommand::MoveToLineStart => s.append("MoveToLineStart"),
        EditorCommand::MoveToLineEnd => s.append("MoveToLineEnd"),
        EditorCommand::PageUp => s.append("PageUp"),
        EditorCommand::PageDown => s.append("PageDown"),
        EditorCommand::InsertTab => s.append("InsertTab"),
        EditorCommand::Save => s.append("Save"),
        EditorCommand::Quit => s.append("Quit"),
        EditorCommand::PromptDeleteChar => s.append("PromptDeleteChar"),
        EditorCommand::AcceptPrompt => s.append("AcceptPrompt"),
        EditorCommand::CancelPrompt => s.append("CancelPrompt"),
        EditorCommand::SelectLeft => s.append("SelectLeft"),
        EditorCommand::SelectRight => s.append("SelectRight"),
        EditorCommand::SelectUp => s.append("SelectUp"),
        EditorCommand::SelectDown => s.append("SelectDown"),
        EditorCommand::SelectLineStart => s.append("SelectLineStart"),
        EditorCommand::SelectLineEnd => s.append("SelectLineEnd"),
        EditorCommand::SelectAll => s.append("SelectAll"),
        EditorCommand::Copy => s.append("Copy"),
        EditorCommand::Cut => s.append("Cut"),
        EditorCommand::Paste => s.append("Paste"),
        EditorCommand::InsertChar(ch) => {
            s.append("InsertChar(");
            push_char_debug(&mut s, *ch);
            s.append(")");
        },
        EditorCommand::PromptInsertChar(ch) => {
            s.append("PromptInsertChar(");
            push_char_debug(&mut s, *ch);
            s.append(")");
        },
        EditorCommand::MoveCursor(d) => {
            s.append("MoveCursor(");
            push_direction(&mut s, *d);
            s.append(")");
        },
        EditorCommand::ChangeMode(m) => {
            s.append("ChangeMode(");
            push_mode(&mut s, *m);
            s.append(")");
        },
        EditorCommand::PluginCommand { plugin_name, command_name } => {
            s.append("PluginCommand { plugin_name: ");
            push_quoted(&mut s, plugin_name.as_str());
            s.append(", command_name: ");
            push_quoted(&mut s, command_name.as_str());
            s.append(" }");
        },
    }
    s
}

} // verus!
