//! Key binding registration for plugins.
//!
//! A plugin describes a binding with [`PluginBindingBuilder`]: a key sequence
//! in the human-readable format (`"Ctrl+S"`, `"g d"`), a command (namespaced
//! with the plugin's name unless it already holds a dot) and the modes in
//! which it is active.
use vstd::prelude::*;
use crate::textops::{
    all_ascii, ascii_lowercase, char_len, contains_char, lemma_letters_are_not_white_space,
    lemma_trimmed_padded, lemma_trimmed_unchanged, lowercase, str_eq, to_lowercase, trim, trimmed,
    white_space,
};

verus! {

/// Editor mode as seen by plugins.
#[derive(Debug, Clone, Copy, PartialEq, Eq, Hash, Structural)]
pub enum EditorMode {
    /// Characters typed are inserted at the cursor.
    Insert,
    /// Navigation and commands.
    Normal,
    /// The user is being prompted for input.
    Prompt,
}

/// The lowercase name of a mode.
pub open spec fn mode_name(m: EditorMode) -> Seq<char> {
    match m {
        EditorMode::Insert => "insert"@,
        EditorMode::Normal => "normal"@,
        EditorMode::Prompt => "prompt"@,
    }
}

/// The mode whose lowercase name is exactly `name`.
pub open spec fn mode_of_name(name: Seq<char>) -> Option<EditorMode> {
    if name == "insert"@ {
        Some(EditorMode::Insert)
    } else if name == "normal"@ {
        Some(EditorMode::Normal)
    } else if name == "prompt"@ {
        Some(EditorMode::Prompt)
    } else {
        None
    }
}

/// The mode named by `s`, ignoring case and surrounding whitespace.
pub open spec fn mode_of_text(s: Seq<char>) -> Option<EditorMode> {
    mode_of_name(lowercase(trimmed(s)))
}

impl EditorMode {
    /// The lowercase name of the mode.
    pub fn as_str(&self) -> (r: &'static str)
        ensures
            r@ == mode_name(*self),
    {
        match self {
            EditorMode::Insert => "insert",
            EditorMode::Normal => "normal",
            EditorMode::Prompt => "prompt",
        }
    }

    /// The mode whose lowercase name is exactly `name` (no trimming, no
    /// case folding).
    pub fn from_name(name: &str) -> (r: Option<EditorMode>)
        ensures
            r == mode_of_name(name@),
    {
        if str_eq(name, "insert") {
            Some(EditorMode::Insert)
        } else if str_eq(name, "normal") {
            Some(EditorMode::Normal)
        } else if str_eq(name, "prompt") {
            Some(EditorMode::Prompt)
        } else {
            None
        }
    }

    /// Parses a mode name, case-insensitively and ignoring surrounding
    /// whitespace.  An unknown name is an `InvalidMode` error carrying the
    /// input unchanged.
    pub fn from_str(s: &str) -> (r: Result<EditorMode, BindingError>)
        ensures
            match mode_of_text(s@) {
                Some(m) => r == Ok::<EditorMode, BindingError>(m),
                None => r matches Err(BindingError::InvalidMode(t)) && t@ == s@,
            },
    {
        let lower = to_lowercase(trim(s));
        match EditorMode::from_name(lower.as_str()) {
            Some(m) => Ok(m),
            None => Err(BindingError::InvalidMode(String::from_str(s))),
        }
    }
}

/// The name of every mode names that mode, and parsing it (as `from_str`
/// does) gives the mode back.
pub proof fn law_mode_name_round_trip(m: EditorMode)
    ensures
        mode_of_name(mode_name(m)) == Some(m),
        mode_of_text(mode_name(m)) == Some(m),
{
    reveal_strlit("insert");
    reveal_strlit("normal");
    reveal_strlit("prompt");
    assert("normal"@[0] != "insert"@[0]);
    assert("prompt"@[0] != "insert"@[0]);
    assert("prompt"@[0] != "normal"@[0]);
    let n = mode_name(m);
    lemma_trimmed_unchanged(n);
    assert(all_ascii(n));
    assert(ascii_lowercase(n) =~= n);
}

/// A mode's name in any ASCII case, with any white space around it, parses
/// to the mode.
pub proof fn law_mode_text_ignores_case_and_padding(
    m: EditorMode,
    pre: Seq<char>,
    name: Seq<char>,
    post: Seq<char>,
)
    requires
        all_ascii(name),
        ascii_lowercase(name) == mode_name(m),
        forall|i: int| 0 <= i < pre.len() ==> white_space(#[trigger] pre[i]),
        forall|i: int| 0 <= i < post.len() ==> white_space(#[trigger] post[i]),
    ensures
        mode_of_text(pre + name + post) == Some(m),
{
    reveal_strlit("insert");
    reveal_strlit("normal");
    reveal_strlit("prompt");
    law_mode_name_round_trip(m);
    let n = mode_name(m);
    assert(name.len() == n.len());
    assert(n.len() == 6);
    lemma_letters_are_not_white_space(name, 0);
    lemma_letters_are_not_white_space(name, name.len() - 1);
    lemma_trimmed_padded(pre, name, post);
}

/// When a plugin binding is active.
#[derive(Debug, Clone, PartialEq, Eq)]
pub enum BindingContext {
    /// Active in Insert and Normal mode, not in Prompt mode.
    Global,
    /// Active only in the given mode.
    Mode(EditorMode),
    /// Active in any of the given modes.
    Modes(Vec<EditorMode>),
}

/// Priority levels of bindings; plugins always get `Plugin`.
#[derive(Debug, Clone, Copy, PartialEq, Eq, PartialOrd, Ord, Structural)]
pub enum Priority {
    /// Built-in editor bindings (level 0).
    Default,
    /// Plugin bindings (level 10).
    Plugin,
    /// User customizations (level 20).
    User,
}

/// The numeric level of a priority.
pub open spec fn priority_level(p: Priority) -> u8 {
    match p {
        Priority::Default => 0,
        Priority::Plugin => 10,
        Priority::User => 20,
    }
}

impl Priority {
    /// The numeric level: 0, 10 or 20.
    pub fn as_u8(&self) -> (r: u8)
        ensures
            r == priority_level(*self),
    {
        match self {
            Priority::Default => 0,
            Priority::Plugin => 10,
            Priority::User => 20,
        }
    }
}

/// Why a plugin binding could not be built or registered.
#[derive(Debug, Clone, PartialEq, Eq)]
pub enum BindingError {
    /// The key sequence is empty.
    EmptySequence,
    /// The command is empty.
    EmptyCommand,
    /// The key sequence does not parse: the sequence and the reason.
    InvalidSequence(String, String),
    /// The mode name is unknown.
    InvalidMode(String),
    /// The sequence is already bound in the same context.
    Conflict { sequence: String, existing_command: String, plugin: String },
    /// A required builder field was not set.
    BuilderValidation(String),
}

impl BindingError {
    /// The human-readable message of the error.
    pub fn to_string(&self) -> (r: String)
        ensures
            r@ == binding_error_message(*self),
    {
        match self {
            BindingError::EmptySequence => String::from_str("key sequence cannot be empty"),
            BindingError::EmptyCommand => String::from_str("command cannot be empty"),
            BindingError::InvalidSequence(seq, reason) => {
                let mut r = String::from_str("invalid key sequence '");
                r.append(seq.as_str());
                r.append("': ");
                r.append(reason.as_str());
                r
            },
            BindingError::InvalidMode(m) => {
                let mut r = String::from_str("invalid mode '");
                r.append(m.as_str());
                r.append("': valid modes are 'insert', 'normal', 'prompt'");
                r
            },
            BindingError::Conflict { sequence, existing_command, plugin } => {
                let mut r = String::from_str("binding conflict: key sequence '");
                r.append(sequence.as_str());
                r.append("' is already bound to '");
                r.append(existing_command.as_str());
                r.append("' in plugin '");
                r.append(plugin.as_str());
                r.append("'");
                r
            },
            BindingError::BuilderValidation(m) => {
                let mut r = String::from_str("binding builder validation failed: ");
                r.append(m.as_str());
                r
            },
        }
    }
}

/// The message of a binding error.
pub open spec fn binding_error_message(e: BindingError) -> Seq<char> {
    match e {
        BindingError::EmptySequence => "key sequence cannot be empty"@,
        BindingError::EmptyCommand => "command cannot be empty"@,
        BindingError::InvalidSequence(seq, reason) => "invalid key sequence '"@ + seq@ + "': "@
            + reason@,
        BindingError::InvalidMode(m) => "invalid mode '"@ + m@
            + "': valid modes are 'insert', 'normal', 'prompt'"@,
        BindingError::Conflict { sequence, existing_command, plugin } =>
            "binding conflict: key sequence '"@ + sequence@ + "' is already bound to '"@
            + existing_command@ + "' in plugin '"@ + plugin@ + "'"@,
        BindingError::BuilderValidation(m) => "binding builder validation failed: "@ + m@,
    }
}

/// A complete plugin key binding.
#[derive(Debug, Clone, PartialEq, Eq)]
pub struct PluginBinding {
    /// The key sequence text, such as `"Ctrl+S"` or `"g d"`.
    pub sequence: String,
    /// The namespaced command, such as `"my-plugin.format"`.
    pub command: String,
    /// The modes in which the binding is active.
    pub context: BindingContext,
}

/// Fluent builder of [`PluginBinding`]s.
#[derive(Debug, Clone)]
pub struct PluginBindingBuilder {
    plugin_name: String,
    sequence: Option<String>,
    command: Option<String>,
    context: BindingContext,
}

/// The modes named in `names`, in order, skipping the names that are not
/// modes (what `in_modes` keeps).
pub open spec fn parsed_modes(names: Seq<Seq<char>>) -> Seq<EditorMode>
    decreases names.len(),
{
    if names.len() == 0 {
        Seq::empty()
    } else {
        match mode_of_text(names.last()) {
            Some(m) => parsed_modes(names.drop_last()).push(m),
            None => parsed_modes(names.drop_last()),
        }
    }
}

/// The command a plugin binding ends up with: unchanged when it already
/// holds a dot, otherwise prefixed with the plugin name and a dot.
pub open spec fn namespaced(plugin: Seq<char>, command: Seq<char>) -> Seq<char> {
    if command.contains('.') {
        command
    } else {
        plugin + "."@ + command
    }
}

/// Message of the validation error for a missing sequence.
pub open spec fn missing_sequence_message() -> Seq<char> {
    "sequence is required - call .bind(sequence, command)"@
}

/// Message of the validation error for a missing command.
pub open spec fn missing_command_message() -> Seq<char> {
    "command is required - call .bind(sequence, command)"@
}

impl PluginBindingBuilder {
    /// The plugin name the builder namespaces commands with.
    pub closed spec fn spec_plugin_name(&self) -> Seq<char> {
        self.plugin_name@
    }

    /// The key sequence set so far.
    pub closed spec fn spec_sequence(&self) -> Option<String> {
        self.sequence
    }

    /// The command set so far.
    pub closed spec fn spec_command(&self) -> Option<String> {
        self.command
    }

    /// The context set so far.
    pub closed spec fn spec_context(&self) -> BindingContext {
        self.context
    }

    /// A builder for the given plugin: no sequence or command yet, global
    /// context.
    pub fn new(plugin_name: &str) -> (r: Self)
        ensures
            r.spec_plugin_name() == plugin_name@,
            r.spec_sequence() is None,
            r.spec_command() is None,
            r.spec_context() == BindingContext::Global,
    {
        PluginBindingBuilder {
            plugin_name: String::from_str(plugin_name),
            sequence: None,
            command: None,
            context: BindingContext::Global,
        }
    }

    /// Sets the key sequence and the command.
    pub fn bind(self, sequence: &str, command: &str) -> (r: Self)
        ensures
            r.spec_plugin_name() == self.spec_plugin_name(),
            r.spec_sequence() matches Some(s) && s@ == sequence@,
            r.spec_command() matches Some(c) && c@ == command@,
            r.spec_context() == self.spec_context(),
            bound_to(self, sequence@, command@, r),
    {
        let mut b = self;
        b.sequence = Some(String::from_str(sequence));
        b.command = Some(String::from_str(command));
        b
    }

    /// Makes the binding active in a single mode; an unknown mode name
    /// gives Normal mode.
    pub fn in_mode(self, mode: &str) -> (r: Self)
        ensures
            r.spec_plugin_name() == self.spec_plugin_name(),
            r.spec_sequence() == self.spec_sequence(),
            r.spec_command() == self.spec_command(),
            r.spec_context() == BindingContext::Mode(
                match mode_of_text(mode@) {
                    Some(m) => m,
                    None => EditorMode::Normal,
                },
            ),
    {
        let m = match EditorMode::from_str(mode) {
            Ok(m) => m,
            Err(_) => EditorMode::Normal,
        };
        let mut b = self;
        b.context = BindingContext::Mode(m);
        b
    }

    /// Makes the binding active in the named modes; names that are not
    /// modes are skipped, and when none is left the binding is global.
    pub fn in_modes(self, modes: &[&str]) -> (r: Self)
        ensures
            r.spec_plugin_name() == self.spec_plugin_name(),
            r.spec_sequence() == self.spec_sequence(),
            r.spec_command() == self.spec_command(),
            ({
                let ps = parsed_modes(modes@.map_values(|m: &str| m@));
                if ps.len() == 0 {
                    r.spec_context() == BindingContext::Global
                } else {
                    r.spec_context() matches BindingContext::Modes(v) && v@ == ps
                }
            }),
    {
        let ghost names = modes@.map_values(|m: &str| m@);
        let mut parsed: Vec<EditorMode> = Vec::new();
        let mut i: usize = 0;
        assert(names.subrange(0, 0) =~= Seq::<Seq<char>>::empty());
        while i < modes.len()
            invariant
                names == modes@.map_values(|m: &str| m@),
                i <= modes@.len(),
                parsed@ == parsed_modes(names.subrange(0, i as int)),
            decreases modes@.len() - i,
        {
            assert(names.subrange(0, i + 1).drop_last() =~= names.subrange(0, i as int));
            assert(names.subrange(0, i + 1).last() == modes@[i as int]@);
            match EditorMode::from_str(modes[i]) {
                Ok(m) => {
                    parsed.push(m);
                },
                Err(_) => {},
            }
            i = i + 1;
        }
        assert(names.subrange(0, modes@.len() as int) =~= names);
        let mut b = self;
        if parsed.len() == 0 {
            b.context = BindingContext::Global;
        } else {
            b.context = BindingContext::Modes(parsed);
        }
        b
    }

    /// Makes the binding global (Insert and Normal mode).
    pub fn global(self) -> (r: Self)
        ensures
            r.spec_plugin_name() == self.spec_plugin_name(),
            r.spec_sequence() == self.spec_sequence(),
            r.spec_command() == self.spec_command(),
            r.spec_context() == BindingContext::Global,
    {
        let mut b = self;
        b.context = BindingContext::Global;
        b
    }

    /// Builds the binding.  A missing sequence or command is a
    /// `BuilderValidation` error, a blank one `EmptySequence` or
    /// `EmptyCommand`; otherwise the command is namespaced.
    pub fn build(self) -> (r: Result<PluginBinding, BindingError>)
        ensures
            self.spec_sequence() is None ==> (r matches Err(BindingError::BuilderValidation(m))
                && m@ == missing_sequence_message()),
            self.spec_sequence() is Some && self.spec_command() is None ==> (r matches Err(
                BindingError::BuilderValidation(m),
            ) && m@ == missing_command_message()),
            self.spec_sequence() matches Some(s) ==> self.spec_command() matches Some(c) ==> {
                if trimmed(s@).len() == 0 {
                    r == Err::<PluginBinding, BindingError>(BindingError::EmptySequence)
                } else if trimmed(c@).len() == 0 {
                    r == Err::<PluginBinding, BindingError>(BindingError::EmptyCommand)
                } else {
                    r matches Ok(b) && b.sequence@ == s@ && b.command@ == namespaced(
                        self.spec_plugin_name(),
                        c@,
                    ) && b.context == self.spec_context()
                }
            },
            r is Ok <==> built_binding(self) is Some,
            r matches Ok(b) ==> built_binding(self) == Some((b.sequence@, b.command@, b.context)),
    {
        let sequence = match self.sequence {
            Some(s) => s,
            None => {
                return Err(
                    BindingError::BuilderValidation(
                        String::from_str("sequence is required - call .bind(sequence, command)"),
                    ),
                );
            },
        };
        let command = match self.command {
            Some(c) => c,
            None => {
                return Err(
                    BindingError::BuilderValidation(
                        String::from_str("command is required - call .bind(sequence, command)"),
                    ),
                );
            },
        };
        if char_len(trim(sequence.as_str())) == 0 {
            return Err(BindingError::EmptySequence);
        }
        if char_len(trim(command.as_str())) == 0 {
            return Err(BindingError::EmptyCommand);
        }
        let full = if contains_char(command.as_str(), '.') {
            command
        } else {
            let mut f = String::from_str(self.plugin_name.as_str());
            f.append(".");
            f.append(command.as_str());
            f
        };
        Ok(PluginBinding { sequence, command: full, context: self.context })
    }
}

/// What `build` makes of a builder: the binding's sequence, namespaced
/// command and context, or `None` when it fails.
pub open spec fn built_binding(b: PluginBindingBuilder) -> Option<(Seq<char>, Seq<char>, BindingContext)> {
    match (b.spec_sequence(), b.spec_command()) {
        (Some(s), Some(c)) => if trimmed(s@).len() == 0 || trimmed(c@).len() == 0 {
            None
        } else {
            Some((s@, namespaced(b.spec_plugin_name(), c@), b.spec_context()))
        },
        _ => None,
    }
}

/// Whether `r` is what `bind(s, c)` makes of `b` (see its contract).
pub open spec fn bound_to(
    b: PluginBindingBuilder,
    s: Seq<char>,
    c: Seq<char>,
    r: PluginBindingBuilder,
) -> bool {
    &&& r.spec_plugin_name() == b.spec_plugin_name()
    &&& r.spec_sequence() matches Some(x) && x@ == s
    &&& r.spec_command() matches Some(y) && y@ == c
    &&& r.spec_context() == b.spec_context()
}

/// The last `bind` wins: binding twice builds what binding only the second
/// time builds, and binding leaves the context as it was.
pub proof fn law_last_bind_wins(
    b: PluginBindingBuilder,
    b1: PluginBindingBuilder,
    b2: PluginBindingBuilder,
    b3: PluginBindingBuilder,
    s1: Seq<char>,
    c1: Seq<char>,
    s2: Seq<char>,
    c2: Seq<char>,
)
    requires
        bound_to(b, s1, c1, b1),
        bound_to(b1, s2, c2, b2),
        bound_to(b, s2, c2, b3),
    ensures
        built_binding(b2) == built_binding(b3),
        b2.spec_context() == b.spec_context(),
{
}

/// Making a builder global changes only the context of what it builds.
pub proof fn law_global_keeps_binding(b: PluginBindingBuilder, g: PluginBindingBuilder)
    requires
        g.spec_plugin_name() == b.spec_plugin_name(),
        g.spec_sequence() == b.spec_sequence(),
        g.spec_command() == b.spec_command(),
        g.spec_context() == BindingContext::Global,
    ensures
        built_binding(g) == match built_binding(b) {
            Some((s, c, _)) => Some((s, c, BindingContext::Global)),
            None => None,
        },
{
}

/// Registration of plugin key bindings; the editor's key binding registry
/// implements it.
pub trait PluginInputExtension {
    /// Registers a binding with plugin priority.
    fn register_keybinding(&mut self, binding: PluginBinding) -> Result<(), BindingError>;
}

} // verus!
