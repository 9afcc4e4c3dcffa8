//! The editor's default key bindings.
//!
//! Global: Ctrl+S and Ctrl+Shift+S save, Ctrl+Q and Ctrl+Shift+Q quit.
//! Insert mode: Enter inserts a newline, Backspace deletes backwards, Tab
//! inserts a tab, Esc goes to Normal mode.  Insert and Normal mode: the
//! arrows move the cursor; Delete, Home, End, Page Up and Page Down.
//! Normal mode: `i` goes to Insert mode.  Prompt mode: Backspace, Enter and
//! Esc edit, accept and cancel the prompt.
use vstd::prelude::*;
use crate::editor::EditorMode;
use super::command::EditorCommand;
use super::direction::Direction;
use super::keybinding::{
    BindingContext, ContextView, KeyBinding, KeyPattern, KeySequence, Priority,
    lemma_same_context_is_view_equality, primary_modifier,
};
use super::keys::{KeyCode, KeyModifiers};
use super::registry::{
    BindingError, KeyBindingRegistry, conflicting, has_conflict, lemma_registered_members,
    registered_in_turn, registers_step, registration_states,
};

verus! {

/// A binding of the default tables: its keys, command and context.
pub struct BindingEntry {
    /// The keys.
    pub keys: Seq<KeyPattern>,
    /// The command.
    pub command: EditorCommand,
    /// The context.
    pub context: ContextView,
}

/// The entry of one key with the modifier bits `bits`.
pub open spec fn key_entry(code: KeyCode, bits: u8, command: EditorCommand, context: ContextView) -> BindingEntry {
    BindingEntry {
        keys: seq![KeyPattern { code, modifiers: KeyModifiers { bits } }],
        command,
        context,
    }
}

/// Whether `b` is the default-priority binding of the entry `e`.
pub open spec fn built_entry(b: KeyBinding, e: BindingEntry) -> bool {
    &&& b.spec_sequence()@ == e.keys
    &&& b.spec_command() == e.command
    &&& b.spec_context()@ == e.context
    &&& b.spec_priority() == Priority::Default
}

/// Whether the bindings are those of the entries, in order.
pub open spec fn built_from(bs: Seq<KeyBinding>, es: Seq<BindingEntry>) -> bool {
    bs.len() == es.len() && forall|i: int| 0 <= i < bs.len() ==> built_entry(#[trigger] bs[i], es[i])
}

/// The global entries, with the primary modifier's bits `primary`.
pub open spec fn global_entries(primary: u8) -> Seq<BindingEntry> {
    seq![
        key_entry(KeyCode::Char('s'), primary, EditorCommand::Save, ContextView::Global),
        key_entry(KeyCode::Char('S'), primary, EditorCommand::Save, ContextView::Global),
        key_entry(KeyCode::Char('q'), primary, EditorCommand::Quit, ContextView::Global),
        key_entry(KeyCode::Char('Q'), primary, EditorCommand::Quit, ContextView::Global),
    ]
}

/// The arrow entries, active in `modes`.
pub open spec fn arrow_entries(modes: Seq<EditorMode>) -> Seq<BindingEntry> {
    let c = ContextView::Modes(modes);
    seq![
        key_entry(KeyCode::Up, 0, EditorCommand::MoveCursor(Direction::Up), c),
        key_entry(KeyCode::Down, 0, EditorCommand::MoveCursor(Direction::Down), c),
        key_entry(KeyCode::Left, 0, EditorCommand::MoveCursor(Direction::Left), c),
        key_entry(KeyCode::Right, 0, EditorCommand::MoveCursor(Direction::Right), c),
    ]
}

/// The navigation entries, active in `modes`.
pub open spec fn navigation_entries(modes: Seq<EditorMode>) -> Seq<BindingEntry> {
    let c = ContextView::Modes(modes);
    seq![
        key_entry(KeyCode::Delete, 0, EditorCommand::DeleteForward, c),
        key_entry(KeyCode::Home, 0, EditorCommand::MoveToLineStart, c),
        key_entry(KeyCode::End, 0, EditorCommand::MoveToLineEnd, c),
        key_entry(KeyCode::PageUp, 0, EditorCommand::PageUp, c),
        key_entry(KeyCode::PageDown, 0, EditorCommand::PageDown, c),
    ]
}

/// The modes in which arrows and navigation keys work.
pub open spec fn editing_modes() -> Seq<EditorMode> {
    seq![EditorMode::Insert, EditorMode::Normal]
}

/// The Insert mode entries, then the arrows and navigation keys.
pub open spec fn insert_entries() -> Seq<BindingEntry> {
    let c = ContextView::Mode(EditorMode::Insert);
    seq![
        key_entry(KeyCode::Enter, 0, EditorCommand::InsertChar('\n'), c),
        key_entry(KeyCode::Backspace, 0, EditorCommand::DeleteChar, c),
        key_entry(KeyCode::Tab, 0, EditorCommand::InsertTab, c),
        key_entry(KeyCode::Esc, 0, EditorCommand::ChangeMode(EditorMode::Normal), c),
    ] + arrow_entries(editing_modes()) + navigation_entries(editing_modes())
}

/// The Normal mode entries.
pub open spec fn normal_entries() -> Seq<BindingEntry> {
    seq![
        key_entry(
            KeyCode::Char('i'),
            0,
            EditorCommand::ChangeMode(EditorMode::Insert),
            ContextView::Mode(EditorMode::Normal),
        ),
    ]
}

/// The Prompt mode entries.
pub open spec fn prompt_entries() -> Seq<BindingEntry> {
    let c = ContextView::Mode(EditorMode::Prompt);
    seq![
        key_entry(KeyCode::Backspace, 0, EditorCommand::PromptDeleteChar, c),
        key_entry(KeyCode::Enter, 0, EditorCommand::AcceptPrompt, c),
        key_entry(KeyCode::Esc, 0, EditorCommand::CancelPrompt, c),
    ]
}

/// All default entries, in the order they are registered, with the primary
/// modifier's bits `primary`.
pub open spec fn default_entries(primary: u8) -> Seq<BindingEntry> {
    global_entries(primary) + insert_entries() + normal_entries() + prompt_entries()
}

proof fn lemma_built_from_concat(a: Seq<KeyBinding>, ea: Seq<BindingEntry>, b: Seq<KeyBinding>, eb: Seq<BindingEntry>)
    requires
        built_from(a, ea),
        built_from(b, eb),
    ensures
        built_from(a + b, ea + eb),
{
    assert forall|i: int| 0 <= i < (a + b).len() implies built_entry(#[trigger] (a + b)[i], (ea + eb)[i]) by {
        if i < a.len() {
            assert((a + b)[i] == a[i]);
        } else {
            assert((a + b)[i] == b[i - a.len()]);
        }
    }
}

/// Appends the default-priority binding of one key.
fn push_key_binding(
    bindings: &mut Vec<KeyBinding>,
    Ghost(es): Ghost<Seq<BindingEntry>>,
    code: KeyCode,
    modifiers: KeyModifiers,
    command: EditorCommand,
    context: BindingContext,
)
    requires
        built_from(old(bindings)@, es),
    ensures
        built_from(
            final(bindings)@,
            es.push(BindingEntry { keys: seq![KeyPattern { code, modifiers }], command, context: context@ }),
        ),
{
    let ghost e = BindingEntry { keys: seq![KeyPattern { code, modifiers }], command, context: context@ };
    let mut patterns: Vec<KeyPattern> = Vec::new();
    patterns.push(KeyPattern::new(code, modifiers));
    proof {
        assert(patterns@ =~= seq![KeyPattern { code, modifiers }]);
    }
    match KeySequence::new(patterns) {
        Some(sequence) => {
            bindings.push(KeyBinding::new(sequence, command, context, Priority::Default));
            proof {
                let bs = final(bindings)@;
                assert forall|i: int| 0 <= i < bs.len() implies built_entry(#[trigger] bs[i], es.push(e)[i]) by {
                    if i < es.len() {
                        assert(bs[i] == old(bindings)@[i]);
                    }
                }
            }
        },
        None => {},
    }
}

/// A copy of a list of modes.
fn copy_modes(modes: &Vec<EditorMode>) -> (r: Vec<EditorMode>)
    ensures
        r@ == modes@,
{
    let mut r: Vec<EditorMode> = Vec::new();
    let mut i: usize = 0;
    while i < modes.len()
        invariant
            i <= modes@.len(),
            r@ == modes@.subrange(0, i as int),
        decreases modes@.len() - i,
    {
        r.push(modes[i]);
        i = i + 1;
        proof {
            assert(r@ =~= modes@.subrange(0, i as int));
        }
    }
    proof {
        assert(modes@.subrange(0, modes@.len() as int) =~= modes@);
    }
    r
}

/// Save and quit with the modifier `primary`, with or without Shift.
pub fn global_bindings_with(primary: KeyModifiers) -> (r: Vec<KeyBinding>)
    ensures
        built_from(r@, global_entries(primary.bits)),
{
    let mut v: Vec<KeyBinding> = Vec::new();
    let ghost es: Seq<BindingEntry> = Seq::empty();
    let ctrl = primary;
    push_key_binding(&mut v, Ghost(es), KeyCode::Char('s'), ctrl, EditorCommand::Save, BindingContext::Global);
    let ghost es = es.push(key_entry(KeyCode::Char('s'), primary.bits, EditorCommand::Save, ContextView::Global));
    push_key_binding(&mut v, Ghost(es), KeyCode::Char('S'), ctrl, EditorCommand::Save, BindingContext::Global);
    let ghost es = es.push(key_entry(KeyCode::Char('S'), primary.bits, EditorCommand::Save, ContextView::Global));
    push_key_binding(&mut v, Ghost(es), KeyCode::Char('q'), ctrl, EditorCommand::Quit, BindingContext::Global);
    let ghost es = es.push(key_entry(KeyCode::Char('q'), primary.bits, EditorCommand::Quit, ContextView::Global));
    push_key_binding(&mut v, Ghost(es), KeyCode::Char('Q'), ctrl, EditorCommand::Quit, BindingContext::Global);
    let ghost es = es.push(key_entry(KeyCode::Char('Q'), primary.bits, EditorCommand::Quit, ContextView::Global));
    assert(es =~= global_entries(primary.bits));
    v
}

/// Save and quit with Ctrl (the primary modifier off macOS), with or
/// without Shift.
pub fn global_bindings() -> (r: Vec<KeyBinding>)
    ensures
        built_from(r@, global_entries(2)),
{
    global_bindings_with(primary_modifier())
}

/// Enter, Backspace, Tab and Esc in Insert mode, then the arrows and the
/// navigation keys in Insert and Normal mode.
pub fn insert_mode_bindings() -> (r: Vec<KeyBinding>)
    ensures
        built_from(r@, insert_entries()),
{
    let mut v: Vec<KeyBinding> = Vec::new();
    let ghost c = ContextView::Mode(EditorMode::Insert);
    let none = KeyModifiers::none();
    let ghost es: Seq<BindingEntry> = Seq::empty();
    push_key_binding(&mut v, Ghost(es), KeyCode::Enter, none, EditorCommand::InsertChar('\n'), BindingContext::Mode(EditorMode::Insert));
    let ghost es = es.push(key_entry(KeyCode::Enter, 0, EditorCommand::InsertChar('\n'), c));
    push_key_binding(&mut v, Ghost(es), KeyCode::Backspace, none, EditorCommand::DeleteChar, BindingContext::Mode(EditorMode::Insert));
    let ghost es = es.push(key_entry(KeyCode::Backspace, 0, EditorCommand::DeleteChar, c));
    push_key_binding(&mut v, Ghost(es), KeyCode::Tab, none, EditorCommand::InsertTab, BindingContext::Mode(EditorMode::Insert));
    let ghost es = es.push(key_entry(KeyCode::Tab, 0, EditorCommand::InsertTab, c));
    push_key_binding(&mut v, Ghost(es), KeyCode::Esc, none, EditorCommand::ChangeMode(EditorMode::Normal), BindingContext::Mode(EditorMode::Insert));
    let ghost es = es.push(key_entry(KeyCode::Esc, 0, EditorCommand::ChangeMode(EditorMode::Normal), c));
    let mut modes: Vec<EditorMode> = Vec::new();
    modes.push(EditorMode::Insert);
    modes.push(EditorMode::Normal);
    assert(modes@ =~= editing_modes());
    let mut arrows = arrow_key_navigation(copy_modes(&modes));
    let mut navigation = navigation_commands(modes);
    proof {
        lemma_built_from_concat(v@, es, arrows@, arrow_entries(editing_modes()));
    }
    v.append(&mut arrows);
    proof {
        lemma_built_from_concat(v@, es + arrow_entries(editing_modes()), navigation@, navigation_entries(editing_modes()));
    }
    v.append(&mut navigation);
    assert(es + arrow_entries(editing_modes()) + navigation_entries(editing_modes()) =~= insert_entries());
    v
}

/// `i` in Normal mode.
pub fn normal_mode_bindings() -> (r: Vec<KeyBinding>)
    ensures
        built_from(r@, normal_entries()),
{
    let mut v: Vec<KeyBinding> = Vec::new();
    let ghost es: Seq<BindingEntry> = Seq::empty();
    push_key_binding(
        &mut v,
        Ghost(es),
        KeyCode::Char('i'),
        KeyModifiers::none(),
        EditorCommand::ChangeMode(EditorMode::Insert),
        BindingContext::Mode(EditorMode::Normal),
    );
    assert(es.push(key_entry(KeyCode::Char('i'), 0, EditorCommand::ChangeMode(EditorMode::Insert), ContextView::Mode(EditorMode::Normal))) =~= normal_entries());
    v
}

/// Backspace, Enter and Esc in Prompt mode.
pub fn prompt_mode_bindings() -> (r: Vec<KeyBinding>)
    ensures
        built_from(r@, prompt_entries()),
{
    let mut v: Vec<KeyBinding> = Vec::new();
    let ghost c = ContextView::Mode(EditorMode::Prompt);
    let none = KeyModifiers::none();
    let ghost es: Seq<BindingEntry> = Seq::empty();
    push_key_binding(&mut v, Ghost(es), KeyCode::Backspace, none, EditorCommand::PromptDeleteChar, BindingContext::Mode(EditorMode::Prompt));
    let ghost es = es.push(key_entry(KeyCode::Backspace, 0, EditorCommand::PromptDeleteChar, c));
    push_key_binding(&mut v, Ghost(es), KeyCode::Enter, none, EditorCommand::AcceptPrompt, BindingContext::Mode(EditorMode::Prompt));
    let ghost es = es.push(key_entry(KeyCode::Enter, 0, EditorCommand::AcceptPrompt, c));
    push_key_binding(&mut v, Ghost(es), KeyCode::Esc, none, EditorCommand::CancelPrompt, BindingContext::Mode(EditorMode::Prompt));
    let ghost es = es.push(key_entry(KeyCode::Esc, 0, EditorCommand::CancelPrompt, c));
    assert(es =~= prompt_entries());
    v
}

/// The four arrows, moving the cursor, in the given modes.
pub fn arrow_key_navigation(modes: Vec<EditorMode>) -> (r: Vec<KeyBinding>)
    ensures
        built_from(r@, arrow_entries(modes@)),
{
    let mut v: Vec<KeyBinding> = Vec::new();
    let ghost mv = modes@;
    let ghost c = ContextView::Modes(mv);
    let none = KeyModifiers::none();
    let ghost es: Seq<BindingEntry> = Seq::empty();
    push_key_binding(&mut v, Ghost(es), KeyCode::Up, none, EditorCommand::MoveCursor(Direction::Up), BindingContext::Modes(copy_modes(&modes)));
    let ghost es = es.push(key_entry(KeyCode::Up, 0, EditorCommand::MoveCursor(Direction::Up), c));
    push_key_binding(&mut v, Ghost(es), KeyCode::Down, none, EditorCommand::MoveCursor(Direction::Down), BindingContext::Modes(copy_modes(&modes)));
    let ghost es = es.push(key_entry(KeyCode::Down, 0, EditorCommand::MoveCursor(Direction::Down), c));
    push_key_binding(&mut v, Ghost(es), KeyCode::Left, none, EditorCommand::MoveCursor(Direction::Left), BindingContext::Modes(copy_modes(&modes)));
    let ghost es = es.push(key_entry(KeyCode::Left, 0, EditorCommand::MoveCursor(Direction::Left), c));
    push_key_binding(&mut v, Ghost(es), KeyCode::Right, none, EditorCommand::MoveCursor(Direction::Right), BindingContext::Modes(modes));
    let ghost es = es.push(key_entry(KeyCode::Right, 0, EditorCommand::MoveCursor(Direction::Right), c));
    assert(es =~= arrow_entries(mv));
    v
}

/// Delete, Home, End, Page Up and Page Down in the given modes.
pub fn navigation_commands(modes: Vec<EditorMode>) -> (r: Vec<KeyBinding>)
    ensures
        built_from(r@, navigation_entries(modes@)),
{
    let mut v: Vec<KeyBinding> = Vec::new();
    let ghost mv = modes@;
    let ghost c = ContextView::Modes(mv);
    let none = KeyModifiers::none();
    let ghost es: Seq<BindingEntry> = Seq::empty();
    push_key_binding(&mut v, Ghost(es), KeyCode::Delete, none, EditorCommand::DeleteForward, BindingContext::Modes(copy_modes(&modes)));
    let ghost es = es.push(key_entry(KeyCode::Delete, 0, EditorCommand::DeleteForward, c));
    push_key_binding(&mut v, Ghost(es), KeyCode::Home, none, EditorCommand::MoveToLineStart, BindingContext::Modes(copy_modes(&modes)));
    let ghost es = es.push(key_entry(KeyCode::Home, 0, EditorCommand::MoveToLineStart, c));
    push_key_binding(&mut v, Ghost(es), KeyCode::End, none, EditorCommand::MoveToLineEnd, BindingContext::Modes(copy_modes(&modes)));
    let ghost es = es.push(key_entry(KeyCode::End, 0, EditorCommand::MoveToLineEnd, c));
    push_key_binding(&mut v, Ghost(es), KeyCode::PageUp, none, EditorCommand::PageUp, BindingContext::Modes(copy_modes(&modes)));
    let ghost es = es.push(key_entry(KeyCode::PageUp, 0, EditorCommand::PageUp, c));
    push_key_binding(&mut v, Ghost(es), KeyCode::PageDown, none, EditorCommand::PageDown, BindingContext::Modes(modes));
    let ghost es = es.push(key_entry(KeyCode::PageDown, 0, EditorCommand::PageDown, c));
    assert(es =~= navigation_entries(mv));
    v
}

/// Whether no two entries have the same keys and the same context.
pub open spec fn entries_distinct(es: Seq<BindingEntry>) -> bool {
    forall|i: int, j: int|
        0 <= i < j < es.len() ==> !((#[trigger] es[i]).keys == (#[trigger] es[j]).keys
            && es[i].context == es[j].context)
}

/// The place of an entry in the default table, read from its first key
/// and its context alone; -1 for an entry that is not there.
spec fn default_slot(e: BindingEntry) -> int {
    let code = e.keys[0].code;
    match e.context {
        ContextView::Global => match code {
            KeyCode::Char(c) => if c == 's' {
                0
            } else if c == 'S' {
                1
            } else if c == 'q' {
                2
            } else if c == 'Q' {
                3
            } else {
                -1
            },
            _ => -1,
        },
        ContextView::Mode(EditorMode::Insert) => match code {
            KeyCode::Enter => 4,
            KeyCode::Backspace => 5,
            KeyCode::Tab => 6,
            KeyCode::Esc => 7,
            _ => -1,
        },
        ContextView::Modes(_) => match code {
            KeyCode::Up => 8,
            KeyCode::Down => 9,
            KeyCode::Left => 10,
            KeyCode::Right => 11,
            KeyCode::Delete => 12,
            KeyCode::Home => 13,
            KeyCode::End => 14,
            KeyCode::PageUp => 15,
            KeyCode::PageDown => 16,
            _ => -1,
        },
        ContextView::Mode(EditorMode::Normal) => match code {
            KeyCode::Char(c) => if c == 'i' {
                17
            } else {
                -1
            },
            _ => -1,
        },
        ContextView::Mode(EditorMode::Prompt) => match code {
            KeyCode::Backspace => 18,
            KeyCode::Enter => 19,
            KeyCode::Esc => 20,
            _ => -1,
        },
        _ => -1,
    }
}

proof fn lemma_default_slots(primary: u8)
    ensures
        default_entries(primary).len() == 21,
        forall|k: int| 0 <= k < 21 ==> default_slot(#[trigger] default_entries(primary)[k]) == k,
{
    let d = default_entries(primary);
    assert(d.len() == 21);
    assert forall|k: int| 0 <= k < 21 implies default_slot(#[trigger] d[k]) == k by {
        if k == 0 {
        } else if k == 1 {
        } else if k == 2 {
        } else if k == 3 {
        } else if k == 4 {
        } else if k == 5 {
        } else if k == 6 {
        } else if k == 7 {
        } else if k == 8 {
        } else if k == 9 {
        } else if k == 10 {
        } else if k == 11 {
        } else if k == 12 {
        } else if k == 13 {
        } else if k == 14 {
        } else if k == 15 {
        } else if k == 16 {
        } else if k == 17 {
        } else if k == 18 {
        } else if k == 19 {
        } else if k == 20 {
        }
    }
}

/// No two default entries have the same keys in the same context.
pub proof fn lemma_default_entries_distinct(primary: u8)
    ensures
        entries_distinct(default_entries(primary)),
{
    lemma_default_slots(primary);
    let d = default_entries(primary);
    assert forall|i: int, j: int| 0 <= i < j < d.len() implies !((#[trigger] d[i]).keys
        == (#[trigger] d[j]).keys && d[i].context == d[j].context) by {
        if d[i].keys == d[j].keys && d[i].context == d[j].context {
            assert(default_slot(d[i]) == default_slot(d[j]));
        }
    }
}

/// Registers the bindings of `table` one after the other, stopping at the
/// first conflict.
fn register_each(registry: &mut KeyBindingRegistry, table: Vec<KeyBinding>) -> (r: Result<(), BindingError>)
    ensures
        final(registry)@.buffer == old(registry)@.buffer,
        r is Ok ==> registered_in_turn(old(registry)@.bindings, final(registry)@.bindings, table@),
        r is Err ==> exists|k: int|
            {
                &&& 0 <= k < table@.len()
                &&& registered_in_turn(
                    old(registry)@.bindings,
                    final(registry)@.bindings,
                    table@.take(k),
                )
                &&& has_conflict(final(registry)@.bindings, #[trigger] table@[k])
                &&& r matches Err(BindingError::Conflict { priority, .. })
                &&& priority == table@[k].spec_priority()
            },
        (forall|k: int, i: int|
            0 <= k < table@.len() && 0 <= i < old(registry)@.bindings.len() ==> !conflicting(
                #[trigger] old(registry)@.bindings[i],
                #[trigger] table@[k],
            )) && (forall|j: int, k: int|
            0 <= j < k < table@.len() ==> !conflicting(#[trigger] table@[j], #[trigger] table@[k]))
            ==> r is Ok,
{
    let ghost t = table@;
    let ghost old_bs = registry@.bindings;
    let ghost mut states: Seq<Seq<KeyBinding>> = seq![old_bs];
    let ghost mut k: int = 0;
    let mut rest = table;
    assert(t.skip(0) =~= t);
    assert(registration_states(states, t.take(0)));
    while rest.len() > 0
        invariant
            0 <= k <= t.len(),
            rest@ == t.skip(k),
            registration_states(states, t.take(k)),
            states[0] == old_bs,
            states.last() == registry@.bindings,
            registry@.buffer == old(registry)@.buffer,
            old_bs == old(registry)@.bindings,
            t == table@,
        decreases rest@.len(),
    {
        let binding = rest.remove(0);
        assert(binding == t[k]);
        let ghost before = registry@.bindings;
        match registry.register(binding) {
            Ok(()) => {
                proof {
                    let after = registry@.bindings;
                    assert(registers_step(before, after, t[k]));
                    let ns = states.push(after);
                    assert forall|q: int| 0 <= q < t.take(k + 1).len() implies registers_step(
                        ns[q],
                        ns[q + 1],
                        #[trigger] t.take(k + 1)[q],
                    ) by {
                        if q < k {
                            assert(t.take(k + 1)[q] == t.take(k)[q]);
                        }
                    }
                    states = ns;
                    assert(rest@ =~= t.skip(k + 1));
                    k = k + 1;
                }
            },
            Err(e) => {
                proof {
                    assert(t.take(k).len() == k);
                    assert(has_conflict(before, t[k]));
                    assert(registration_states(states, t.take(k)));
                    assert(registered_in_turn(old_bs, registry@.bindings, t.take(k)));
                    assert(0 <= k < t.len() && registered_in_turn(old_bs, registry@.bindings, t.take(k))
                        && has_conflict(registry@.bindings, t[k]));
                    if (forall|k: int, i: int|
                        0 <= k < t.len() && 0 <= i < old_bs.len() ==> !conflicting(
                            #[trigger] old_bs[i],
                            #[trigger] t[k],
                        )) && (forall|j: int, k: int|
                        0 <= j < k < t.len() ==> !conflicting(#[trigger] t[j], #[trigger] t[k])) {
                        lemma_registered_members(states, t.take(k), k);
                        let i = choose|i: int| 0 <= i < before.len() && conflicting(#[trigger] before[i], t[k]);
                        assert(states[k] == before);
                        assert(before[i] == states[k][i]);
                        if states[0].contains(before[i]) {
                            let q = choose|q: int| 0 <= q < old_bs.len() && #[trigger] old_bs[q] == before[i];
                            assert(!conflicting(old_bs[q], t[k]));
                        } else {
                            let q = choose|q: int|
                                0 <= q < k && #[trigger] t.take(k).subrange(0, k)[q] == before[i];
                            assert(t[q] == before[i]);
                            assert(!conflicting(t[q], t[k]));
                        }
                        assert(false);
                    }
                }
                return Err(e);
            },
        }
    }
    proof {
        assert(t.take(k) =~= t);
    }
    Ok(())
}

/// Registers the default bindings, the global ones with the modifier
/// `primary`: the global ones, then Insert, Normal and
/// Prompt mode's, stopping at the first conflict.  A registry without
/// default-priority bindings takes them all.
pub fn register_default_bindings_with(
    registry: &mut KeyBindingRegistry,
    primary: KeyModifiers,
) -> (r: Result<(), BindingError>)
    ensures
        final(registry)@.buffer == old(registry)@.buffer,
        r is Ok ==> exists|t: Seq<KeyBinding>|
            #[trigger] built_from(t, default_entries(primary.bits)) && registered_in_turn(
                old(registry)@.bindings,
                final(registry)@.bindings,
                t,
            ),
        r is Err ==> exists|t: Seq<KeyBinding>, k: int|
            {
                &&& #[trigger] built_from(t, default_entries(primary.bits))
                &&& 0 <= k < t.len()
                &&& registered_in_turn(old(registry)@.bindings, final(registry)@.bindings, t.take(k))
                &&& has_conflict(final(registry)@.bindings, #[trigger] t[k])
                &&& r matches Err(BindingError::Conflict { priority, .. })
                &&& priority == Priority::Default
            },
        (forall|i: int|
            0 <= i < old(registry)@.bindings.len() ==> (#[trigger] old(registry)@.bindings[i]).spec_priority()
                != Priority::Default) ==> r is Ok,
{
    let mut table = global_bindings_with(primary);
    let mut insert = insert_mode_bindings();
    let mut normal = normal_mode_bindings();
    let mut prompt = prompt_mode_bindings();
    proof {
        lemma_built_from_concat(table@, global_entries(primary.bits), insert@, insert_entries());
    }
    table.append(&mut insert);
    proof {
        lemma_built_from_concat(table@, global_entries(primary.bits) + insert_entries(), normal@, normal_entries());
    }
    table.append(&mut normal);
    proof {
        lemma_built_from_concat(
            table@,
            global_entries(primary.bits) + insert_entries() + normal_entries(),
            prompt@,
            prompt_entries(),
        );
    }
    table.append(&mut prompt);
    let ghost t = table@;
    let ghost old_bs = registry@.bindings;
    proof {
        let d = default_entries(primary.bits);
        assert(built_from(t, d));
        lemma_default_entries_distinct(primary.bits);
        assert forall|j: int, k: int| 0 <= j < k < t.len() implies !conflicting(
            #[trigger] t[j],
            #[trigger] t[k],
        ) by {
            assert(built_entry(t[j], d[j]));
            assert(built_entry(t[k], d[k]));
            lemma_same_context_is_view_equality(t[j].spec_context(), t[k].spec_context());
        }
        if forall|i: int| 0 <= i < old_bs.len() ==> (#[trigger] old_bs[i]).spec_priority() != Priority::Default {
            assert forall|k: int, i: int| 0 <= k < t.len() && 0 <= i < old_bs.len() implies !conflicting(
                #[trigger] old_bs[i],
                #[trigger] t[k],
            ) by {
                assert(built_entry(t[k], d[k]));
            }
        }
    }
    let r = register_each(registry, table);
    proof {
        if r is Err {
            let k = choose|k: int|
                {
                    &&& 0 <= k < t.len()
                    &&& registered_in_turn(old_bs, registry@.bindings, t.take(k))
                    &&& has_conflict(registry@.bindings, #[trigger] t[k])
                    &&& r matches Err(BindingError::Conflict { priority, .. })
                    &&& priority == t[k].spec_priority()
                };
            assert(built_entry(t[k], default_entries(primary.bits)[k]));
        }
    }
    r
}

/// Registers the default bindings with Ctrl as the primary modifier (as off
/// macOS; see [`register_default_bindings_with`]).
pub fn register_default_bindings(registry: &mut KeyBindingRegistry) -> (r: Result<(), BindingError>)
    ensures
        final(registry)@.buffer == old(registry)@.buffer,
        r is Ok ==> exists|t: Seq<KeyBinding>|
            #[trigger] built_from(t, default_entries(2)) && registered_in_turn(
                old(registry)@.bindings,
                final(registry)@.bindings,
                t,
            ),
        r is Err ==> exists|t: Seq<KeyBinding>, k: int|
            {
                &&& #[trigger] built_from(t, default_entries(2))
                &&& 0 <= k < t.len()
                &&& registered_in_turn(old(registry)@.bindings, final(registry)@.bindings, t.take(k))
                &&& has_conflict(final(registry)@.bindings, #[trigger] t[k])
                &&& r matches Err(BindingError::Conflict { priority, .. })
                &&& priority == Priority::Default
            },
        (forall|i: int|
            0 <= i < old(registry)@.bindings.len() ==> (#[trigger] old(registry)@.bindings[i]).spec_priority()
                != Priority::Default) ==> r is Ok,
{
    register_default_bindings_with(registry, primary_modifier())
}

} // verus!
