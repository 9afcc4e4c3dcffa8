//! User key bindings from the configuration file.
//!
//! The file holds a list of bindings, each with a key sequence, a command
//! name and an optional mode:
//!
//! ```toml
//! [[keybindings]]
//! sequence = "Ctrl+S"
//! command = "file.save"
//! mode = "normal"
//! ```
//!
//! Each binding gets the user priority, above defaults and plugins.  A
//! binding that does not parse, or that conflicts with one already
//! registered, is skipped with a warning; the others still load.
use vstd::prelude::*;
use crate::editor::EditorMode;
use crate::editor::editor_mode_of_text;
use crate::textops::{decimal, push_decimal, to_lowercase, trim, trimmed, lowercase};
use super::command::{CommandParseError, EditorCommand, command_outcome};
use super::keybinding::{
    BindingContext, KeyBinding, KeyParseFailure, KeySequence, ParseError, Priority,
    sequence_of_text,
};
use super::debug_text::{context_debug, key_sequence_debug};
use super::registry::{
    BindingError, KeyBindingRegistry, command_text_fails, has_conflict, registers_step,
    registration_error_message,
};

verus! {

/// Why the configuration, or one of its bindings, does not load.
#[derive(Debug, Clone, PartialEq)]
pub enum ConfigError {
    /// The file could not be read: its path and the reason.
    ReadError { path: String, source: String },
    /// The file is not valid TOML of the expected shape: its path and the
    /// reason.
    TomlParseError { path: String, source: String },
    /// The key sequence of the binding with this 1-based number does not
    /// parse.
    InvalidSequence { index: usize, sequence: String, reason: String },
    /// The command of the binding with this number does not parse.
    InvalidCommand { index: usize, command: String, reason: String },
    /// The mode of the binding with this number is unknown.
    InvalidMode { index: usize, mode: String },
    /// The binding with this number conflicts with a registered one.
    BindingConflict { index: usize, source: BindingError },
}

/// The configuration file's contents.
#[derive(Debug, Clone, PartialEq, Eq)]
pub struct KeybindingConfig {
    /// The bindings, in file order.
    pub keybindings: Vec<UserBinding>,
}

/// One binding of the configuration file.
#[derive(Debug, Clone, PartialEq, Eq)]
pub struct UserBinding {
    /// The key sequence, such as `"Ctrl+S"` or `"d d"`.
    pub sequence: String,
    /// The command name, such as `"file.save"`.
    pub command: String,
    /// The mode, such as `"normal"`; none for every mode but Prompt.
    pub mode: Option<String>,
}

/// What loading the bindings gave: how many were registered, and a warning
/// for each one skipped, in file order.
#[derive(Debug)]
pub struct LoadReport {
    /// The number of bindings registered.
    pub loaded: usize,
    /// The errors of the bindings skipped.
    pub warnings: Vec<ConfigError>,
}

/// The mode named by `s`, case and surrounding whitespace ignored.
pub fn parse_mode(s: &str) -> (r: Result<EditorMode, ()>)
    ensures
        match editor_mode_of_text(s@) {
            Some(m) => r == Ok::<EditorMode, ()>(m),
            None => r is Err,
        },
{
    let lower = to_lowercase(trim(s));
    match EditorMode::from_name(lower.as_str()) {
        Some(m) => Ok(m),
        None => Err(()),
    }
}

/// The reason given for a key sequence that does not parse.
pub open spec fn sequence_error_reason(e: KeyParseFailure) -> Seq<char> {
    match e {
        KeyParseFailure::EmptyInput => "sequence cannot be empty"@,
        KeyParseFailure::EmptyPattern => "incomplete key pattern (e.g., 'Ctrl+' with no key)"@,
        KeyParseFailure::UnknownModifier(m) => "unknown modifier '"@ + m
            + "' (valid: Ctrl, Shift, Alt, Super)"@,
        KeyParseFailure::UnknownKey(k) => "unknown key name '"@ + k
            + "' (check spelling or use special key names like Enter, Esc, Tab)"@,
        KeyParseFailure::InvalidFormat(f) => "invalid format '"@ + f
            + "' (expected 'Ctrl+S' or 'd d')"@,
    }
}

/// The reason given for a command that does not parse.
pub open spec fn command_error_reason(e: CommandParseError) -> Seq<char> {
    match e {
        CommandParseError::EmptyCommand => "command cannot be empty"@,
        CommandParseError::UnknownCommand(c) => "unknown command '"@ + c@ + "'"@,
        CommandParseError::InvalidParameter { command, param, reason } => "invalid parameter '"@
            + param@ + "' for command '"@ + command@ + "': "@ + reason@,
        CommandParseError::InvalidPluginCommandFormat(f) => "invalid plugin command format '"@
            + f@ + "'"@,
    }
}

/// The reason for a key sequence parse error.
pub fn format_parse_error(error: &ParseError) -> (r: String)
    ensures
        r@ == sequence_error_reason(error@),
{
    match error {
        ParseError::EmptyInput => String::from_str("sequence cannot be empty"),
        ParseError::EmptyPattern => String::from_str(
            "incomplete key pattern (e.g., 'Ctrl+' with no key)",
        ),
        ParseError::UnknownModifier(m) => {
            let mut r = String::from_str("unknown modifier '");
            r.append(m.as_str());
            r.append("' (valid: Ctrl, Shift, Alt, Super)");
            r
        },
        ParseError::UnknownKey(k) => {
            let mut r = String::from_str("unknown key name '");
            r.append(k.as_str());
            r.append("' (check spelling or use special key names like Enter, Esc, Tab)");
            r
        },
        ParseError::InvalidFormat(f) => {
            let mut r = String::from_str("invalid format '");
            r.append(f.as_str());
            r.append("' (expected 'Ctrl+S' or 'd d')");
            r
        },
    }
}

/// The reason for a command parse error.
pub fn format_command_error(error: &CommandParseError) -> (r: String)
    ensures
        r@ == command_error_reason(*error),
{
    match error {
        CommandParseError::EmptyCommand => String::from_str("command cannot be empty"),
        CommandParseError::UnknownCommand(c) => {
            let mut r = String::from_str("unknown command '");
            r.append(c.as_str());
            r.append("'");
            r
        },
        CommandParseError::InvalidParameter { command, param, reason } => {
            let mut r = String::from_str("invalid parameter '");
            r.append(param.as_str());
            r.append("' for command '");
            r.append(command.as_str());
            r.append("': ");
            r.append(reason.as_str());
            r
        },
        CommandParseError::InvalidPluginCommandFormat(f) => {
            let mut r = String::from_str("invalid plugin command format '");
            r.append(f.as_str());
            r.append("'");
            r
        },
    }
}

/// Whether `r` is what loading the binding `ub`, numbered `index`, gives:
/// an error for the first part that does not parse (sequence, command,
/// mode), else the user-priority binding, in the named mode or global.
pub open spec fn user_binding_result(
    ub: UserBinding,
    index: usize,
    r: Result<KeyBinding, ConfigError>,
) -> bool {
    let t = trimmed(ub.command@);
    let n = lowercase(t);
    match sequence_of_text(ub.sequence@) {
        Err(e) => r matches Err(ConfigError::InvalidSequence { index: i, sequence, reason }) && i
            == index && sequence@ == ub.sequence@ && reason@ == sequence_error_reason(e),
        Ok(ps) => if command_text_fails(ub.command@) {
            r matches Err(ConfigError::InvalidCommand { index: i, command, reason }) && i == index
                && command@ == ub.command@ && exists|e: CommandParseError|
                command_outcome(n, t, Err(e)) && reason@ == command_error_reason(e)
        } else {
            match ub.mode {
                Some(m) => match editor_mode_of_text(m@) {
                    None => r matches Err(ConfigError::InvalidMode { index: i, mode }) && i == index
                        && mode@ == m@,
                    Some(md) => r matches Ok(b) && b.spec_sequence()@ == ps && command_outcome(
                        n,
                        t,
                        Ok(b.spec_command()),
                    ) && b.spec_context() == BindingContext::Mode(md) && b.spec_priority()
                        == Priority::User,
                },
                None => r matches Ok(b) && b.spec_sequence()@ == ps && command_outcome(
                    n,
                    t,
                    Ok(b.spec_command()),
                ) && b.spec_context() == BindingContext::Global && b.spec_priority()
                    == Priority::User,
            }
        },
    }
}

/// The binding of one configuration entry, numbered `index` from 1.
pub fn load_single_binding(user_binding: &UserBinding, index: usize) -> (r: Result<KeyBinding, ConfigError>)
    ensures
        user_binding_result(*user_binding, index, r),
{
    let sequence = match KeySequence::parse(user_binding.sequence.as_str()) {
        Ok(s) => s,
        Err(e) => {
            return Err(
                ConfigError::InvalidSequence {
                    index,
                    sequence: user_binding.sequence.clone(),
                    reason: format_parse_error(&e),
                },
            );
        },
    };
    let command = match EditorCommand::parse(user_binding.command.as_str()) {
        Ok(c) => c,
        Err(e) => {
            return Err(
                ConfigError::InvalidCommand {
                    index,
                    command: user_binding.command.clone(),
                    reason: format_command_error(&e),
                },
            );
        },
    };
    let context = match &user_binding.mode {
        Some(mode_text) => match parse_mode(mode_text.as_str()) {
            Ok(mode) => BindingContext::Mode(mode),
            Err(()) => {
                return Err(ConfigError::InvalidMode { index, mode: mode_text.clone() });
            },
        },
        None => BindingContext::Global,
    };
    Ok(KeyBinding::new(sequence, command, context, Priority::User))
}

/// The message of a configuration error.
pub open spec fn config_error_message(e: ConfigError) -> Seq<char> {
    match e {
        ConfigError::ReadError { path, source } => "failed to read config file '"@ + path@ + "': "@
            + source@,
        ConfigError::TomlParseError { path, source } => "failed to parse TOML in '"@ + path@
            + "': "@ + source@,
        ConfigError::InvalidSequence { index, sequence, reason } => "invalid key sequence '"@
            + sequence@ + "' in keybinding #"@ + decimal(index as nat) + ": "@ + reason@,
        ConfigError::InvalidCommand { index, command, reason } => "invalid command '"@ + command@
            + "' in keybinding #"@ + decimal(index as nat) + ": "@ + reason@,
        ConfigError::InvalidMode { index, mode } => "invalid mode '"@ + mode@ + "' in keybinding #"@
            + decimal(index as nat) + ": valid modes are 'insert', 'normal', 'prompt'"@,
        ConfigError::BindingConflict { index, source } => "binding conflict in keybinding #"@
            + decimal(index as nat) + ": "@ + registration_error_message(source),
    }
}

impl ConfigError {
    /// The human-readable message of the error.
    pub fn to_string(&self) -> (r: String)
        ensures
            r@ == config_error_message(*self),
    {
        match self {
            ConfigError::ReadError { path, source } => {
                let mut r = String::from_str("failed to read config file '");
                r.append(path.as_str());
                r.append("': ");
                r.append(source.as_str());
                r
            },
            ConfigError::TomlParseError { path, source } => {
                let mut r = String::from_str("failed to parse TOML in '");
                r.append(path.as_str());
                r.append("': ");
                r.append(source.as_str());
                r
            },
            ConfigError::InvalidSequence { index, sequence, reason } => {
                let mut r = String::from_str("invalid key sequence '");
                r.append(sequence.as_str());
                r.append("' in keybinding #");
                push_decimal(&mut r, *index);
                r.append(": ");
                r.append(reason.as_str());
                r
            },
            ConfigError::InvalidCommand { index, command, reason } => {
                let mut r = String::from_str("invalid command '");
                r.append(command.as_str());
                r.append("' in keybinding #");
                push_decimal(&mut r, *index);
                r.append(": ");
                r.append(reason.as_str());
                r
            },
            ConfigError::InvalidMode { index, mode } => {
                let mut r = String::from_str("invalid mode '");
                r.append(mode.as_str());
                r.append("' in keybinding #");
                push_decimal(&mut r, *index);
                r.append(": valid modes are 'insert', 'normal', 'prompt'");
                r
            },
            ConfigError::BindingConflict { index, source } => {
                let mut r = String::from_str("binding conflict in keybinding #");
                push_decimal(&mut r, *index);
                r.append(": ");
                let m = source.to_string();
                r.append(m.as_str());
                r
            },
        }
    }
}

/// Whether loading the entry `ub`, numbered `index`, takes the bindings
/// `before` to `after` with the warning `note`: an entry that does not
/// parse, or whose binding conflicts with a registered one, leaves them
/// unchanged with a warning; any other is registered.
pub open spec fn load_step(
    before: Seq<KeyBinding>,
    after: Seq<KeyBinding>,
    ub: UserBinding,
    index: usize,
    note: Option<ConfigError>,
) -> bool {
    exists|o: Result<KeyBinding, ConfigError>|
        #[trigger] user_binding_result(ub, index, o) && match o {
            Err(e) => after == before && note == Some(e),
            Ok(b) => if has_conflict(before, b) {
                &&& after == before
                &&& note matches Some(
                    ConfigError::BindingConflict {
                        index: i,
                        source: BindingError::Conflict { sequence, context, priority },
                    },
                )
                &&& i == index
                &&& sequence@ == key_sequence_debug(b.spec_sequence()@)
                &&& context@ == context_debug(b.spec_context()@)
                &&& priority == Priority::User
            } else {
                registers_step(before, after, b) && note is None
            },
        }
}

/// The warnings among the notes, in order.
pub open spec fn warnings_of(notes: Seq<Option<ConfigError>>) -> Seq<ConfigError>
    decreases notes.len(),
{
    if notes.len() == 0 {
        Seq::empty()
    } else {
        match notes.last() {
            Some(e) => warnings_of(notes.drop_last()).push(e),
            None => warnings_of(notes.drop_last()),
        }
    }
}

/// The number of notes without a warning: the entries registered.
pub open spec fn registered_count(notes: Seq<Option<ConfigError>>) -> nat
    decreases notes.len(),
{
    if notes.len() == 0 {
        0
    } else {
        registered_count(notes.drop_last()) + if notes.last() is None {
            1nat
        } else {
            0nat
        }
    }
}

/// Whether `states` are the bindings before and after loading each entry of
/// `table` in turn, with the warning `notes[k]` of entry `k`.
pub open spec fn load_trace(
    states: Seq<Seq<KeyBinding>>,
    notes: Seq<Option<ConfigError>>,
    table: Seq<UserBinding>,
) -> bool {
    &&& states.len() == table.len() + 1
    &&& notes.len() == table.len()
    &&& forall|k: int|
        0 <= k < table.len() ==> load_step(
            states[k],
            states[k + 1],
            #[trigger] table[k],
            (k + 1) as usize,
            notes[k],
        )
}

/// Whether loading the entries of `table` in turn takes the bindings `old`
/// to `new`, with `loaded` entries registered and the `warnings` of the
/// others.
pub open spec fn loaded_in_turn(
    old: Seq<KeyBinding>,
    new: Seq<KeyBinding>,
    table: Seq<UserBinding>,
    loaded: nat,
    warnings: Seq<ConfigError>,
) -> bool {
    exists|states: Seq<Seq<KeyBinding>>, notes: Seq<Option<ConfigError>>|
        {
            &&& #[trigger] load_trace(states, notes, table)
            &&& states[0] == old
            &&& states.last() == new
            &&& warnings == warnings_of(notes)
            &&& loaded == registered_count(notes)
        }
}

/// Registers the bindings of the configuration entries with user priority,
/// in order, numbering them from 1; an entry that does not parse or whose
/// binding conflicts is skipped with a warning.
pub fn register_user_bindings(registry: &mut KeyBindingRegistry, bindings: &Vec<UserBinding>) -> (r: LoadReport)
    ensures
        final(registry)@.buffer == old(registry)@.buffer,
        loaded_in_turn(
            old(registry)@.bindings,
            final(registry)@.bindings,
            bindings@,
            r.loaded as nat,
            r.warnings@,
        ),
{
    let ghost old_bs = registry@.bindings;
    let ghost mut states: Seq<Seq<KeyBinding>> = seq![old_bs];
    let ghost mut notes: Seq<Option<ConfigError>> = Seq::empty();
    let mut loaded: usize = 0;
    let mut warnings: Vec<ConfigError> = Vec::new();
    let mut k: usize = 0;
    while k < bindings.len()
        invariant
            k <= bindings@.len(),
            states.len() == k + 1,
            notes.len() == k,
            states[0] == old_bs,
            states.last() == registry@.bindings,
            registry@.buffer == old(registry)@.buffer,
            old_bs == old(registry)@.bindings,
            forall|q: int|
                0 <= q < k ==> load_step(
                    states[q],
                    states[q + 1],
                    #[trigger] bindings@[q],
                    (q + 1) as usize,
                    notes[q],
                ),
            warnings@ == warnings_of(notes),
            loaded == registered_count(notes),
            loaded <= k,
        decreases bindings@.len() - k,
    {
        let index = k + 1;
        let before_bs = Ghost(registry@.bindings);
        let result = load_single_binding(&bindings[k], index);
        let ghost loaded_result = result;
        let ghost note: Option<ConfigError>;
        match result {
            Ok(binding) => {
                let ghost b = binding;
                match registry.register(binding) {
                    Ok(()) => {
                        loaded = loaded + 1;
                        proof {
                            note = None;
                        }
                    },
                    Err(e) => {
                        let w = ConfigError::BindingConflict { index, source: e };
                        proof {
                            note = Some(w);
                        }
                        warnings.push(w);
                    },
                }
                proof {
                    assert(user_binding_result(bindings@[k as int], index, Ok(b)));
                }
            },
            Err(e) => {
                proof {
                    note = Some(e);
                }
                warnings.push(e);
            },
        }
        proof {
            assert(load_step(before_bs@, registry@.bindings, bindings@[k as int], index, note));
            let ns = notes.push(note);
            assert(ns.drop_last() =~= notes);
            let nst = states.push(registry@.bindings);
            assert forall|q: int| 0 <= q < k + 1 implies load_step(
                nst[q],
                nst[q + 1],
                #[trigger] bindings@[q],
                (q + 1) as usize,
                ns[q],
            ) by {
                if q < k {
                    assert(nst[q] == states[q]);
                    assert(nst[q + 1] == states[q + 1]);
                    assert(ns[q] == notes[q]);
                }
            }
            notes = ns;
            states = nst;
        }
        k = k + 1;
    }
    proof {
        assert(load_trace(states, notes, bindings@));
    }
    LoadReport { loaded, warnings }
}

} // verus!
