//! The registry of key bindings: bindings kept from the highest priority
//! down, and the keys typed so far of a sequence in progress.
//!
//! A typed sequence runs the first active binding whose keys are exactly the
//! sequence, so a user binding wins over a plugin binding, which wins over a
//! default binding.  A binding conflicts with another when both have the
//! same keys, the same context and the same priority; the registry never
//! holds two conflicting bindings.
use vstd::prelude::*;
use std::time::{Duration, Instant};
use crate::editor::EditorMode;
use super::command::{CommandParseError, EditorCommand};
use super::keybinding::{
    BindingContext, KeyBinding, KeyPattern, KeySequence, Priority, context_active,
    is_proper_prefix, lemma_same_context_is_view_equality, priority_level, same_context,
};
use super::debug_text::{
    command_debug, command_debug_text, context_debug, context_debug_text, debug_quoted,
    key_sequence_debug, push_quoted, sequence_debug_text,
};
use super::priority_search::{priority_insertion_index, priority_sorted};
use super::command::{builtin_command, command_error_message, command_outcome, plugin_parts};
use super::keybinding::{parse_error_message, sequence_of_text};
use crate::plugin_api::input::{
    BindingContext as PluginContext, BindingError as PluginBindingError, EditorMode as PluginMode,
    PluginBinding, PluginInputExtension,
};
use crate::textops::{trimmed, lowercase};

verus! {

#[verifier::external_type_specification]
#[verifier::external_body]
pub struct ExInstant(Instant);

/// `Instant::now()`: the current time, which nothing here states.
#[verifier::external_body]
fn now() -> Instant {
    Instant::now()
}

/// `Instant::elapsed`: the time since `since`, which depends on the clock.
#[verifier::external_body]
fn elapsed_since(since: &Instant) -> Duration {
    since.elapsed()
}

/// `Duration::as_nanos`: the whole duration in nanoseconds.  Durations are
/// opaque to the verifier, so the number is left unstated.
#[verifier::external_body]
fn nanos_of(d: &Duration) -> u128 {
    d.as_nanos()
}

/// `Duration::from_secs`: a duration of `secs` seconds, opaque to the
/// verifier.
#[verifier::external_body]
fn seconds(secs: u64) -> Duration {
    Duration::from_secs(secs)
}

/// Why a binding cannot be registered.
#[derive(Debug, Clone, PartialEq)]
pub enum BindingError {
    /// A binding with the same keys, context and priority exists; the debug
    /// forms of the new binding's keys and context, and its priority.
    Conflict { sequence: String, context: String, priority: Priority },
    /// The key sequence is invalid.
    InvalidSequence(String),
    /// The context is invalid.
    InvalidContext(String),
}

/// The name of a priority as its debug form prints it.
pub open spec fn priority_name(p: Priority) -> Seq<char> {
    match p {
        Priority::Default => "Default"@,
        Priority::Plugin => "Plugin"@,
        Priority::User => "User"@,
    }
}

fn priority_name_text(p: Priority) -> (r: &'static str)
    ensures
        r@ == priority_name(p),
{
    match p {
        Priority::Default => "Default",
        Priority::Plugin => "Plugin",
        Priority::User => "User",
    }
}

/// The message of a registration error.
pub open spec fn registration_error_message(e: BindingError) -> Seq<char> {
    match e {
        BindingError::Conflict { sequence, context, priority } => "Binding conflict: sequence "@
            + debug_quoted(sequence@) + " with context "@ + debug_quoted(context@)
            + " at priority "@ + priority_name(priority) + " already exists"@,
        BindingError::InvalidSequence(s) => "Invalid key sequence: "@ + s@,
        BindingError::InvalidContext(s) => "Invalid binding context: "@ + s@,
    }
}

impl BindingError {
    /// The human-readable message of the error.
    pub fn to_string(&self) -> (r: String)
        ensures
            r@ == registration_error_message(*self),
    {
        match self {
            BindingError::Conflict { sequence, context, priority } => {
                let mut r = String::from_str("Binding conflict: sequence ");
                push_quoted(&mut r, sequence.as_str());
                r.append(" with context ");
                push_quoted(&mut r, context.as_str());
                r.append(" at priority ");
                r.append(priority_name_text(*priority));
                r.append(" already exists");
                r
            },
            BindingError::InvalidSequence(s) => {
                let mut r = String::from_str("Invalid key sequence: ");
                r.append(s.as_str());
                r
            },
            BindingError::InvalidContext(s) => {
                let mut r = String::from_str("Invalid binding context: ");
                r.append(s.as_str());
                r
            },
        }
    }
}

/// Whether two bindings conflict: same keys, same context, same priority.
pub open spec fn conflicting(a: KeyBinding, b: KeyBinding) -> bool {
    &&& a.spec_sequence()@ == b.spec_sequence()@
    &&& same_context(a.spec_context(), b.spec_context())
    &&& a.spec_priority() == b.spec_priority()
}

/// Whether no two of the bindings conflict.
pub open spec fn conflict_free(bs: Seq<KeyBinding>) -> bool {
    forall|i: int, j: int| 0 <= i < j < bs.len() ==> !conflicting(#[trigger] bs[i], #[trigger] bs[j])
}

/// Whether some binding of `bs` conflicts with `b`.
pub open spec fn has_conflict(bs: Seq<KeyBinding>, b: KeyBinding) -> bool {
    exists|i: int| 0 <= i < bs.len() && conflicting(#[trigger] bs[i], b)
}

/// Whether `new` is `old` with `b` inserted at `pos`, after every binding of
/// a higher priority and before every binding of a lower one.
pub open spec fn placed_by_priority(
    old: Seq<KeyBinding>,
    new: Seq<KeyBinding>,
    b: KeyBinding,
    pos: int,
) -> bool {
    &&& 0 <= pos <= old.len()
    &&& new == old.insert(pos, b)
    &&& forall|i: int|
        0 <= i < pos ==> priority_level(b.spec_priority()) <= priority_level(
            #[trigger] old[i].spec_priority(),
        )
    &&& forall|i: int|
        pos <= i < old.len() ==> priority_level(#[trigger] old[i].spec_priority())
            <= priority_level(b.spec_priority())
}

/// Whether registering `b` takes the bindings `before` to `after`: it
/// conflicts with none of them and goes to its priority's place.
pub open spec fn registers_step(before: Seq<KeyBinding>, after: Seq<KeyBinding>, b: KeyBinding) -> bool {
    !has_conflict(before, b) && exists|pos: int| placed_by_priority(before, after, b, pos)
}

/// Whether `states` are the bindings before and after each registration of
/// the bindings of `table`, one after the other.
pub open spec fn registration_states(states: Seq<Seq<KeyBinding>>, table: Seq<KeyBinding>) -> bool {
    &&& states.len() == table.len() + 1
    &&& forall|k: int| 0 <= k < table.len() ==> registers_step(states[k], states[k + 1], #[trigger] table[k])
}

/// Whether registering the bindings of `table` one after the other, each
/// without a conflict, takes the bindings `old` to `new`.
pub open spec fn registered_in_turn(
    old: Seq<KeyBinding>,
    new: Seq<KeyBinding>,
    table: Seq<KeyBinding>,
) -> bool {
    exists|states: Seq<Seq<KeyBinding>>|
        #[trigger] registration_states(states, table) && states[0] == old && states.last() == new
}

/// After `k` registrations in turn, every binding comes from the first
/// state or from the first `k` bindings of `table`.
pub proof fn lemma_registered_members(states: Seq<Seq<KeyBinding>>, table: Seq<KeyBinding>, k: int)
    requires
        registration_states(states, table),
        0 <= k <= table.len(),
    ensures
        forall|i: int|
            0 <= i < states[k].len() ==> states[0].contains(#[trigger] states[k][i])
                || table.subrange(0, k).contains(states[k][i]),
    decreases k,
{
    if k > 0 {
        lemma_registered_members(states, table, k - 1);
        let before = states[k - 1];
        let after = states[k];
        let b = table[k - 1];
        assert(registers_step(before, after, b));
        let pos = choose|pos: int| placed_by_priority(before, after, b, pos);
        assert forall|i: int| 0 <= i < after.len() implies states[0].contains(#[trigger] after[i])
            || table.subrange(0, k).contains(after[i]) by {
            if i == pos {
                assert(table.subrange(0, k)[k - 1] == after[i]);
            } else {
                let oi = if i < pos { i } else { i - 1 };
                assert(after[i] == before[oi]);
                if table.subrange(0, k - 1).contains(before[oi]) {
                    let q = choose|q: int|
                        0 <= q < k - 1 && #[trigger] table.subrange(0, k - 1)[q] == before[oi];
                    assert(table.subrange(0, k)[q] == after[i]);
                }
            }
        }
    }
}

/// Whether a binding runs for the typed keys `buffer` in `mode`.
pub open spec fn binding_applies(b: KeyBinding, mode: EditorMode, buffer: Seq<KeyPattern>) -> bool {
    context_active(b.spec_context(), mode) && b.spec_sequence()@ == buffer
}

/// Whether the binding at `i` is the first one that applies.
pub open spec fn first_applicable(
    bs: Seq<KeyBinding>,
    mode: EditorMode,
    buffer: Seq<KeyPattern>,
    i: int,
) -> bool {
    &&& 0 <= i < bs.len()
    &&& binding_applies(bs[i], mode, buffer)
    &&& forall|j: int| 0 <= j < i ==> !binding_applies(#[trigger] bs[j], mode, buffer)
}

/// Whether the bindings are kept by `unregister(sequence, context)`.
pub open spec fn kept_by_unregister(
    b: KeyBinding,
    sequence: Seq<KeyPattern>,
    context: BindingContext,
) -> bool {
    !(b.spec_sequence()@ == sequence && same_context(b.spec_context(), context))
}

/// The test that `unregister(sequence, context)` keeps a binding by.
pub open spec fn unregister_keeps(
    sequence: Seq<KeyPattern>,
    context: BindingContext,
) -> spec_fn(KeyBinding) -> bool {
    |b: KeyBinding| kept_by_unregister(b, sequence, context)
}

/// The test that `unregister_by_priority(p)` keeps a binding by.
pub open spec fn priority_keeps(p: Priority) -> spec_fn(KeyBinding) -> bool {
    |b: KeyBinding| b.spec_priority() != p
}

/// The registry's contents: its bindings in order, the keys typed so far,
/// the timeout and the time of the last key.
pub struct RegistryModel {
    /// The bindings, from the highest priority down.
    pub bindings: Seq<KeyBinding>,
    /// The keys of the sequence in progress.
    pub buffer: Seq<KeyPattern>,
    /// How long a sequence in progress waits for its next key.
    pub timeout: Duration,
    /// The same timeout in nanoseconds, which the expiry compares with.
    pub timeout_nanos: u128,
    /// When the last key was typed.
    pub last_key: Instant,
}

/// Whether two registry states have the same timeout.
pub open spec fn same_timeout(a: RegistryModel, b: RegistryModel) -> bool {
    a.timeout == b.timeout && a.timeout_nanos == b.timeout_nanos
}

/// Whether two registry states have the same timeout and the same time of
/// the last key.
pub open spec fn same_clock(a: RegistryModel, b: RegistryModel) -> bool {
    same_timeout(a, b) && a.last_key == b.last_key
}

/// The key bindings, with the keys of a sequence in progress and the time
/// of the last key.
#[derive(Debug)]
pub struct KeyBindingRegistry {
    bindings: Vec<KeyBinding>,
    sequence_buffer: Vec<KeyPattern>,
    last_key_time: Instant,
    timeout: Duration,
    timeout_nanos: u128,
}

impl View for KeyBindingRegistry {
    type V = RegistryModel;

    closed spec fn view(&self) -> RegistryModel {
        RegistryModel {
            bindings: self.bindings@,
            buffer: self.sequence_buffer@,
            timeout: self.timeout,
            timeout_nanos: self.timeout_nanos,
            last_key: self.last_key_time,
        }
    }
}


/// Removing one binding keeps the order and the absence of conflicts.
proof fn lemma_remove_keeps_invariant(bs: Seq<KeyBinding>, k: int)
    requires
        0 <= k < bs.len(),
        priority_sorted(bs),
        conflict_free(bs),
    ensures
        priority_sorted(bs.remove(k)),
        conflict_free(bs.remove(k)),
{
    let r = bs.remove(k);
    assert forall|i: int, j: int| 0 <= i < j < r.len() implies priority_level(
        #[trigger] r[j].spec_priority(),
    ) <= priority_level(#[trigger] r[i].spec_priority()) && !conflicting(r[i], r[j]) by {
        let oi = if i < k { i } else { i + 1 };
        let oj = if j < k { j } else { j + 1 };
        assert(r[i] == bs[oi]);
        assert(r[j] == bs[oj]);
        assert(oi < oj);
    }
}

/// Whether two contexts are the same does not depend on their order.
proof fn lemma_same_context_symmetric(a: BindingContext, b: BindingContext)
    ensures
        same_context(a, b) == same_context(b, a),
{
}

/// Inserting a binding at its priority's place keeps the order, and keeps
/// the absence of conflicts when it conflicts with none.
proof fn lemma_insert_keeps_invariant(bs: Seq<KeyBinding>, b: KeyBinding, pos: int)
    requires
        priority_sorted(bs),
        conflict_free(bs),
        !has_conflict(bs, b),
        placed_by_priority(bs, bs.insert(pos, b), b, pos),
    ensures
        priority_sorted(bs.insert(pos, b)),
        conflict_free(bs.insert(pos, b)),
{
    let r = bs.insert(pos, b);
    assert forall|i: int, j: int| 0 <= i < j < r.len() implies priority_level(
        #[trigger] r[j].spec_priority(),
    ) <= priority_level(#[trigger] r[i].spec_priority()) && !conflicting(r[i], r[j]) by {
        if i == pos {
            assert(r[j] == bs[j - 1]);
            assert(!conflicting(bs[j - 1], b));
            lemma_same_context_symmetric(bs[j - 1].spec_context(), b.spec_context());
        } else if j == pos {
            assert(r[i] == bs[i]);
            assert(!conflicting(bs[i], b));
        } else {
            let oi = if i < pos { i } else { i - 1 };
            let oj = if j < pos { j } else { j - 1 };
            assert(r[i] == bs[oi]);
            assert(r[j] == bs[oj]);
        }
    }
}

/// One more binding looked at by a filter: it is kept or dropped.
proof fn lemma_filter_step(bs: Seq<KeyBinding>, k: int, keep: spec_fn(KeyBinding) -> bool)
    requires
        0 <= k < bs.len(),
    ensures
        bs.take(k + 1).filter(keep) == (if keep(bs[k]) {
            bs.take(k).filter(keep).push(bs[k])
        } else {
            bs.take(k).filter(keep)
        }),
{
    reveal_with_fuel(Seq::filter, 1);
    assert(bs.take(k + 1).drop_last() =~= bs.take(k));
}

/// A filter keeps a sequence whole when it keeps each of its bindings.
proof fn lemma_filter_keeps_all(bs: Seq<KeyBinding>, keep: spec_fn(KeyBinding) -> bool)
    requires
        forall|i: int| 0 <= i < bs.len() ==> keep(#[trigger] bs[i]),
    ensures
        bs.filter(keep) == bs,
    decreases bs.len(),
{
    reveal_with_fuel(Seq::filter, 1);
    if bs.len() > 0 {
        let init = bs.drop_last();
        assert forall|i: int| 0 <= i < init.len() implies keep(#[trigger] init[i]) by {
            assert(init[i] == bs[i]);
        }
        lemma_filter_keeps_all(init, keep);
        assert(keep(bs[bs.len() - 1]));
        assert(init.push(bs.last()) =~= bs);
    }
}

/// A filter that drops a binding leaves nothing of it alone.
proof fn lemma_filter_drops_one(b: KeyBinding, keep: spec_fn(KeyBinding) -> bool)
    requires
        !keep(b),
    ensures
        seq![b].filter(keep) == Seq::<KeyBinding>::empty(),
{
    reveal_with_fuel(Seq::filter, 2);
    assert(seq![b].drop_last() =~= Seq::<KeyBinding>::empty());
    assert(seq![b].last() == b);
}

/// Filtering a sequence with one binding between two parts filters each
/// part.
proof fn lemma_filter_around(
    front: Seq<KeyBinding>,
    b: KeyBinding,
    back: Seq<KeyBinding>,
    keep: spec_fn(KeyBinding) -> bool,
)
    ensures
        (front + seq![b] + back).filter(keep) == front.filter(keep) + seq![b].filter(keep)
            + back.filter(keep),
{
    Seq::filter_distributes_over_add(front + seq![b], back, keep);
    Seq::filter_distributes_over_add(front, seq![b], keep);
}

/// Inserting a binding that a filter drops into a sequence that it keeps
/// whole, then filtering, gives back the sequence.
proof fn lemma_filter_drops_inserted(
    bs: Seq<KeyBinding>,
    b: KeyBinding,
    pos: int,
    keep: spec_fn(KeyBinding) -> bool,
)
    requires
        0 <= pos <= bs.len(),
        !keep(b),
        forall|i: int| 0 <= i < bs.len() ==> keep(#[trigger] bs[i]),
    ensures
        bs.insert(pos, b).filter(keep) == bs,
{
    let front = bs.take(pos);
    let back = bs.skip(pos);
    assert(bs.insert(pos, b) =~= front + seq![b] + back);
    assert(front + back =~= bs);
    assert forall|i: int| 0 <= i < front.len() implies keep(#[trigger] front[i]) by {
        assert(front[i] == bs[i]);
    }
    assert forall|i: int| 0 <= i < back.len() implies keep(#[trigger] back[i]) by {
        assert(back[i] == bs[i + pos]);
    }
    lemma_filter_keeps_all(front, keep);
    lemma_filter_keeps_all(back, keep);
    lemma_filter_drops_one(b, keep);
    lemma_filter_around(front, b, back, keep);
}

/// Unregistering the keys and context of a binding just registered gives
/// back the bindings there were before, when none of those had these keys
/// in this context.
pub proof fn law_unregister_undoes_register(
    old: Seq<KeyBinding>,
    new: Seq<KeyBinding>,
    b: KeyBinding,
    pos: int,
)
    requires
        placed_by_priority(old, new, b, pos),
        forall|i: int|
            0 <= i < old.len() ==> kept_by_unregister(
                #[trigger] old[i],
                b.spec_sequence()@,
                b.spec_context(),
            ),
    ensures
        new.filter(unregister_keeps(b.spec_sequence()@, b.spec_context())) == old,
{
    let keep = unregister_keeps(b.spec_sequence()@, b.spec_context());
    assert(!keep(b)) by {
        lemma_same_context_is_view_equality(b.spec_context(), b.spec_context());
    }
    assert(forall|i: int| 0 <= i < old.len() ==> keep(#[trigger] old[i]));
    lemma_filter_drops_inserted(old, b, pos, keep);
}

impl KeyBindingRegistry {
    #[verifier::type_invariant]
    spec fn well_formed(self) -> bool {
        priority_sorted(self.bindings@) && conflict_free(self.bindings@)
    }

    /// An empty registry whose key sequences expire after `timeout`.
    pub fn new(timeout: Duration) -> (r: Self)
        ensures
            r@.bindings.len() == 0,
            r@.buffer.len() == 0,
            r@.timeout == timeout,
    {
        let nanos = nanos_of(&timeout);
        KeyBindingRegistry::with_timeout_parts(timeout, nanos)
    }

    /// An empty registry with the timeout `timeout`, `timeout_nanos`
    /// nanoseconds long.
    fn with_timeout_parts(timeout: Duration, timeout_nanos: u128) -> (r: Self)
        ensures
            r@.bindings.len() == 0,
            r@.buffer.len() == 0,
            r@.timeout == timeout,
            r@.timeout_nanos == timeout_nanos,
    {
        KeyBindingRegistry {
            bindings: Vec::new(),
            sequence_buffer: Vec::new(),
            last_key_time: now(),
            timeout,
            timeout_nanos,
        }
    }

    fn find_conflict(&self, binding: &KeyBinding) -> (r: Option<usize>)
        ensures
            match r {
                Some(i) => i < self@.bindings.len() && conflicting(self@.bindings[i as int], *binding),
                None => !has_conflict(self@.bindings, *binding),
            },
    {
        let mut i: usize = 0;
        while i < self.bindings.len()
            invariant
                i <= self.bindings@.len(),
                forall|j: int| 0 <= j < i ==> !conflicting(#[trigger] self.bindings@[j], *binding),
            decreases self.bindings@.len() - i,
        {
            let existing = &self.bindings[i];
            if existing.sequence().same_keys(binding.sequence()) && existing.context().same_as(
                binding.context(),
            ) && existing.priority() == binding.priority() {
                return Some(i);
            }
            i = i + 1;
        }
        None
    }

    /// Registers a binding.  When one with the same keys, context and
    /// priority exists, nothing changes and the result is a `Conflict`
    /// error; otherwise the binding goes after every binding of a higher
    /// priority and before every binding of a lower one.
    pub fn register(&mut self, binding: KeyBinding) -> (r: Result<(), BindingError>)
        ensures
            has_conflict(old(self)@.bindings, binding) ==> {
                &&& final(self)@ == old(self)@
                &&& r matches Err(BindingError::Conflict { sequence, context, priority })
                &&& sequence@ == key_sequence_debug(binding.spec_sequence()@)
                &&& context@ == context_debug(binding.spec_context()@)
                &&& priority == binding.spec_priority()
            },
            !has_conflict(old(self)@.bindings, binding) ==> {
                &&& r is Ok
                &&& same_clock(old(self)@, final(self)@)
                &&& final(self)@.buffer == old(self)@.buffer
                &&& exists|pos: int|
                    placed_by_priority(old(self)@.bindings, final(self)@.bindings, binding, pos)
            },
            priority_sorted(final(self)@.bindings),
            conflict_free(final(self)@.bindings),
    {
        proof {
            use_type_invariant(&*self);
        }
        if let Some(_) = self.find_conflict(&binding) {
            let sequence = sequence_debug_text(binding.sequence());
            let context = context_debug_text(binding.context());
            return Err(BindingError::Conflict { sequence, context, priority: binding.priority() });
        }
        let pos = priority_insertion_index(&self.bindings, binding.priority());
        proof {
            assert(placed_by_priority(self.bindings@, self.bindings@.insert(pos as int, binding), binding, pos as int));
            lemma_insert_keeps_invariant(self.bindings@, binding, pos as int);
        }
        let mut bindings = Vec::new();
        std::mem::swap(&mut bindings, &mut self.bindings);
        bindings.insert(pos, binding);
        self.bindings = bindings;
        assert(placed_by_priority(old(self)@.bindings, self@.bindings, binding, pos as int));
        Ok(())
    }

    /// Removes the bindings of `sequence` in `context`, whatever their
    /// priority; the others keep their order.
    pub fn unregister(&mut self, sequence: &KeySequence, context: &BindingContext)
        ensures
            final(self)@.bindings == old(self)@.bindings.filter(
                unregister_keeps(sequence@, *context),
            ),
            same_clock(old(self)@, final(self)@),
            final(self)@.buffer == old(self)@.buffer,
            priority_sorted(final(self)@.bindings),
            conflict_free(final(self)@.bindings),
    {
        proof {
            use_type_invariant(&*self);
        }
        let ghost keep = unregister_keeps(sequence@, *context);
        let ghost old_bs = self.bindings@;
        let mut bs: Vec<KeyBinding> = Vec::new();
        std::mem::swap(&mut bs, &mut self.bindings);
        let mut i: usize = 0;
        let ghost mut k: int = 0;
        assert(old_bs.take(0).filter(keep) =~= Seq::<KeyBinding>::empty()) by {
            reveal_with_fuel(Seq::filter, 1);
        }
        assert(old_bs.skip(0) =~= old_bs);
        while i < bs.len()
            invariant
                0 <= k <= old_bs.len(),
                bs@ == old_bs.take(k).filter(keep) + old_bs.skip(k),
                i == old_bs.take(k).filter(keep).len(),
                priority_sorted(bs@),
                conflict_free(bs@),
                keep == unregister_keeps(sequence@, *context),
            decreases bs@.len() - i,
        {
            proof {
                lemma_filter_step(old_bs, k, keep);
                assert(bs@[i as int] == old_bs[k]);
                assert(old_bs.skip(k).drop_first() =~= old_bs.skip(k + 1));
            }
            if bs[i].sequence().same_keys(sequence) && bs[i].context().same_as(context) {
                proof {
                    lemma_remove_keeps_invariant(bs@, i as int);
                }
                bs.remove(i);
                proof {
                    assert(bs@ =~= old_bs.take(k + 1).filter(keep) + old_bs.skip(k + 1));
                }
            } else {
                i = i + 1;
                proof {
                    assert(bs@ =~= old_bs.take(k + 1).filter(keep) + old_bs.skip(k + 1));
                }
            }
            proof {
                k = k + 1;
            }
        }
        proof {
            assert(old_bs.take(k) =~= old_bs);
            assert(old_bs.skip(k) =~= Seq::<KeyBinding>::empty());
            assert(bs@ =~= old_bs.filter(keep));
        }
        self.bindings = bs;
        proof {
            use_type_invariant(&*self);
        }
    }

    /// Removes every binding of priority `priority` and says how many went;
    /// the others keep their order.
    pub fn unregister_by_priority(&mut self, priority: Priority) -> (r: usize)
        ensures
            final(self)@.bindings == old(self)@.bindings.filter(priority_keeps(priority)),
            same_clock(old(self)@, final(self)@),
            final(self)@.buffer == old(self)@.buffer,
            r == old(self)@.bindings.len() - final(self)@.bindings.len(),
            priority_sorted(final(self)@.bindings),
            conflict_free(final(self)@.bindings),
    {
        proof {
            use_type_invariant(&*self);
        }
        let ghost keep = priority_keeps(priority);
        let ghost old_bs = self.bindings@;
        assert(old_bs.len() == self.bindings.len());
        let mut bs: Vec<KeyBinding> = Vec::new();
        std::mem::swap(&mut bs, &mut self.bindings);
        let mut i: usize = 0;
        let mut removed: usize = 0;
        let ghost mut k: int = 0;
        assert(old_bs.take(0).filter(keep) =~= Seq::<KeyBinding>::empty()) by {
            reveal_with_fuel(Seq::filter, 1);
        }
        assert(old_bs.skip(0) =~= old_bs);
        while i < bs.len()
            invariant
                0 <= k <= old_bs.len(),
                bs@ == old_bs.take(k).filter(keep) + old_bs.skip(k),
                i == old_bs.take(k).filter(keep).len(),
                removed + i == k,
                old_bs.len() <= usize::MAX,
                priority_sorted(bs@),
                conflict_free(bs@),
                keep == priority_keeps(priority),
            decreases bs@.len() - i,
        {
            proof {
                lemma_filter_step(old_bs, k, keep);
                assert(bs@[i as int] == old_bs[k]);
                assert(old_bs.skip(k).drop_first() =~= old_bs.skip(k + 1));
            }
            if bs[i].priority() == priority {
                proof {
                    lemma_remove_keeps_invariant(bs@, i as int);
                }
                bs.remove(i);
                removed = removed + 1;
                proof {
                    assert(bs@ =~= old_bs.take(k + 1).filter(keep) + old_bs.skip(k + 1));
                }
            } else {
                i = i + 1;
                proof {
                    assert(bs@ =~= old_bs.take(k + 1).filter(keep) + old_bs.skip(k + 1));
                }
            }
            proof {
                k = k + 1;
            }
        }
        proof {
            assert(old_bs.take(k) =~= old_bs);
            assert(old_bs.skip(k) =~= Seq::<KeyBinding>::empty());
            assert(bs@ =~= old_bs.filter(keep));
        }
        self.bindings = bs;
        proof {
            use_type_invariant(&*self);
        }
        removed
    }

    /// The number of bindings.
    pub fn len(&self) -> (r: usize)
        ensures
            r == self@.bindings.len(),
    {
        self.bindings.len()
    }

    /// Whether there is no binding.
    pub fn is_empty(&self) -> (r: bool)
        ensures
            r == (self@.bindings.len() == 0),
    {
        self.bindings.len() == 0
    }

    /// Adds a key typed at `at` to the sequence in progress; the timeout
    /// is measured from `at` on.
    pub fn add_key_at(&mut self, pattern: KeyPattern, at: Instant)
        ensures
            final(self)@.bindings == old(self)@.bindings,
            same_timeout(old(self)@, final(self)@),
            final(self)@.last_key == at,
            final(self)@.buffer == old(self)@.buffer.push(pattern),
    {
        proof {
            use_type_invariant(&*self);
        }
        let mut buffer: Vec<KeyPattern> = Vec::new();
        std::mem::swap(&mut buffer, &mut self.sequence_buffer);
        buffer.push(pattern);
        self.sequence_buffer = buffer;
        self.last_key_time = at;
    }

    /// Adds a typed key to the sequence in progress and restarts the timeout
    /// clock: the time of the last key becomes the clock's current reading
    /// (see [`KeyBindingRegistry::add_key_at`]).
    pub fn add_to_sequence(&mut self, pattern: KeyPattern)
        ensures
            final(self)@.bindings == old(self)@.bindings,
            same_timeout(old(self)@, final(self)@),
            final(self)@.buffer == old(self)@.buffer.push(pattern),
    {
        let at = now();
        self.add_key_at(pattern, at);
    }

    /// The command of the first binding, in priority order, that is active
    /// in `current_mode` and whose keys are exactly the typed keys; no
    /// active binding of the same keys has a higher priority.
    pub fn find_match(&self, current_mode: EditorMode) -> (r: Option<&EditorCommand>)
        ensures
            match r {
                Some(c) => exists|i: int|
                    {
                        &&& first_applicable(self@.bindings, current_mode, self@.buffer, i)
                        &&& *c == self@.bindings[i].spec_command()
                        &&& forall|j: int|
                            0 <= j < self@.bindings.len() && binding_applies(
                                #[trigger] self@.bindings[j],
                                current_mode,
                                self@.buffer,
                            ) ==> priority_level(self@.bindings[j].spec_priority())
                                <= priority_level(self@.bindings[i].spec_priority())
                    },
                None => forall|i: int|
                    0 <= i < self@.bindings.len() ==> !binding_applies(
                        #[trigger] self@.bindings[i],
                        current_mode,
                        self@.buffer,
                    ),
            },
    {
        proof {
            use_type_invariant(self);
        }
        let mut i: usize = 0;
        while i < self.bindings.len()
            invariant
                i <= self.bindings@.len(),
                priority_sorted(self.bindings@),
                forall|j: int|
                    0 <= j < i ==> !binding_applies(
                        #[trigger] self.bindings@[j],
                        current_mode,
                        self.sequence_buffer@,
                    ),
            decreases self.bindings@.len() - i,
        {
            let b = &self.bindings[i];
            if b.context().is_active(current_mode) && b.sequence().matches(
                self.sequence_buffer.as_slice(),
            ) {
                proof {
                    let bs = self@.bindings;
                    assert(first_applicable(bs, current_mode, self@.buffer, i as int));
                    assert forall|j: int|
                        0 <= j < bs.len() && binding_applies(
                            #[trigger] bs[j],
                            current_mode,
                            self@.buffer,
                        ) implies priority_level(bs[j].spec_priority()) <= priority_level(
                        bs[i as int].spec_priority(),
                    ) by {
                        if j > i {
                            assert(priority_level(bs[j].spec_priority()) <= priority_level(
                                bs[i as int].spec_priority(),
                            ));
                        }
                    }
                }
                return Some(b.command());
            }
            i = i + 1;
        }
        None
    }

    /// Whether the typed keys are a proper, non-empty prefix of the keys of
    /// some binding active in `current_mode`.
    pub fn is_partial_match(&self, current_mode: EditorMode) -> (r: bool)
        ensures
            r == exists|i: int|
                0 <= i < self@.bindings.len() && context_active(
                    (#[trigger] self@.bindings[i]).spec_context(),
                    current_mode,
                ) && is_proper_prefix(self@.bindings[i].spec_sequence()@, self@.buffer),
    {
        let mut i: usize = 0;
        while i < self.bindings.len()
            invariant
                i <= self.bindings@.len(),
                forall|j: int|
                    0 <= j < i ==> !(context_active(
                        (#[trigger] self.bindings@[j]).spec_context(),
                        current_mode,
                    ) && is_proper_prefix(
                        self.bindings@[j].spec_sequence()@,
                        self.sequence_buffer@,
                    )),
            decreases self.bindings@.len() - i,
        {
            let b = &self.bindings[i];
            if b.context().is_active(current_mode) && b.sequence().is_partial_match(
                self.sequence_buffer.as_slice(),
            ) {
                return true;
            }
            i = i + 1;
        }
        false
    }

    /// Clears the typed keys when `timed_out` says the sequence expired and
    /// there are typed keys; says whether it cleared them.
    pub fn expire_sequence(&mut self, timed_out: bool) -> (r: bool)
        ensures
            r == (timed_out && old(self)@.buffer.len() > 0),
            final(self)@.bindings == old(self)@.bindings,
            same_clock(old(self)@, final(self)@),
            final(self)@.buffer == (if r {
                Seq::<KeyPattern>::empty()
            } else {
                old(self)@.buffer
            }),
    {
        proof {
            use_type_invariant(&*self);
        }
        if timed_out && self.sequence_buffer.len() > 0 {
            self.sequence_buffer = Vec::new();
            true
        } else {
            false
        }
    }

    /// Clears the typed keys when the timeout has passed since the last key;
    /// says whether it cleared them.  With no typed keys it does nothing and
    /// answers `false`.
    pub fn check_timeout(&mut self) -> (r: bool)
        ensures
            final(self)@.bindings == old(self)@.bindings,
            old(self)@.buffer.len() == 0 ==> !r,
            old(self)@.buffer.len() > 0 && old(self)@.timeout_nanos == 0 ==> r,
            same_clock(old(self)@, final(self)@),
            final(self)@.buffer == (if r {
                Seq::<KeyPattern>::empty()
            } else {
                old(self)@.buffer
            }),
    {
        if self.sequence_buffer.len() == 0 {
            return false;
        }
        let elapsed = elapsed_since(&self.last_key_time);
        let elapsed_nanos = nanos_of(&elapsed);
        self.expire_after(elapsed_nanos)
    }

    /// Clears the typed keys when `elapsed_nanos`, the time since the last
    /// key, has reached the timeout and there are typed keys; says whether
    /// it cleared them.
    pub fn expire_after(&mut self, elapsed_nanos: u128) -> (r: bool)
        ensures
            r == (old(self)@.buffer.len() > 0 && elapsed_nanos >= old(self)@.timeout_nanos),
            final(self)@.bindings == old(self)@.bindings,
            same_clock(old(self)@, final(self)@),
            final(self)@.buffer == (if r {
                Seq::<KeyPattern>::empty()
            } else {
                old(self)@.buffer
            }),
    {
        let timed_out = elapsed_nanos >= self.timeout_nanos;
        self.expire_sequence(timed_out)
    }

    /// Forgets the typed keys.
    pub fn clear_sequence(&mut self)
        ensures
            final(self)@.bindings == old(self)@.bindings,
            same_clock(old(self)@, final(self)@),
            final(self)@.buffer.len() == 0,
    {
        proof {
            use_type_invariant(&*self);
        }
        self.sequence_buffer = Vec::new();
    }
}

impl Default for KeyBindingRegistry {
    /// An empty registry whose sequences expire after one second.
    fn default() -> (r: Self)
        ensures
            r@.bindings.len() == 0,
            r@.buffer.len() == 0,
            r@.timeout_nanos == 1_000_000_000,
    {
        KeyBindingRegistry::with_timeout_parts(seconds(1), 1_000_000_000)
    }
}


/// The editor mode a plugin names.
pub open spec fn editor_mode_for(m: PluginMode) -> EditorMode {
    match m {
        PluginMode::Insert => EditorMode::Insert,
        PluginMode::Normal => EditorMode::Normal,
        PluginMode::Prompt => EditorMode::Prompt,
    }
}

/// Whether `c` is the editor context of the plugin context `pc`: global
/// stays global, one mode stays one mode, a list of modes stays the same
/// list.
pub open spec fn context_for_plugin(c: BindingContext, pc: PluginContext) -> bool {
    match (pc, c) {
        (PluginContext::Global, BindingContext::Global) => true,
        (PluginContext::Mode(m), BindingContext::Mode(x)) => x == editor_mode_for(m),
        (PluginContext::Modes(v), BindingContext::Modes(w)) => w@ == v@.map_values(
            |m: PluginMode| editor_mode_for(m),
        ),
        _ => false,
    }
}

/// Whether a command text does not parse as a command.
pub open spec fn command_text_fails(s: Seq<char>) -> bool {
    let t = trimmed(s);
    let n = lowercase(t);
    t.len() == 0 || (builtin_command(n) is None && (!n.contains('.') || plugin_parts(n) is None))
}

fn editor_mode_of_plugin_mode(m: PluginMode) -> (r: EditorMode)
    ensures
        r == editor_mode_for(m),
{
    match m {
        PluginMode::Insert => EditorMode::Insert,
        PluginMode::Normal => EditorMode::Normal,
        PluginMode::Prompt => EditorMode::Prompt,
    }
}

/// The editor context of a plugin context.
pub fn context_of_plugin_context(pc: &PluginContext) -> (r: BindingContext)
    ensures
        context_for_plugin(r, *pc),
{
    match pc {
        PluginContext::Global => BindingContext::Global,
        PluginContext::Mode(m) => BindingContext::Mode(editor_mode_of_plugin_mode(*m)),
        PluginContext::Modes(v) => {
            let mut w: Vec<EditorMode> = Vec::new();
            let mut i: usize = 0;
            while i < v.len()
                invariant
                    i <= v@.len(),
                    w@ == v@.subrange(0, i as int).map_values(|m: PluginMode| editor_mode_for(m)),
                decreases v@.len() - i,
            {
                w.push(editor_mode_of_plugin_mode(v[i]));
                proof {
                    assert(v@.subrange(0, i + 1).drop_last() =~= v@.subrange(0, i as int));
                }
                i = i + 1;
                assert(w@ =~= v@.subrange(0, i as int).map_values(
                    |m: PluginMode| editor_mode_for(m),
                ));
            }
            assert(v@.subrange(0, v@.len() as int) =~= v@);
            BindingContext::Modes(w)
        },
    }
}

impl PluginInputExtension for KeyBindingRegistry {
    /// Registers a plugin's binding with plugin priority.  A sequence that
    /// does not parse is an `InvalidSequence` error with the sequence and the
    /// parse error's message; a command that does not parse is a
    /// `BuilderValidation` error with the command error's message; a binding
    /// that conflicts is a `Conflict` error with the sequence text.  On any
    /// error the registry is unchanged.
    fn register_keybinding(&mut self, binding: PluginBinding) -> (r: Result<(), PluginBindingError>)
        ensures
            sequence_of_text(binding.sequence@) matches Err(e) ==> {
                &&& final(self)@ == old(self)@
                &&& r matches Err(PluginBindingError::InvalidSequence(s, reason))
                &&& s@ == binding.sequence@
                &&& reason@ == parse_error_message(e)
            },
            sequence_of_text(binding.sequence@) is Ok && command_text_fails(binding.command@) ==> {
                &&& final(self)@ == old(self)@
                &&& r matches Err(PluginBindingError::BuilderValidation(m))
                &&& exists|e: CommandParseError|
                    command_outcome(
                        lowercase(trimmed(binding.command@)),
                        trimmed(binding.command@),
                        Err(e),
                    ) && m@ == command_error_message(e)
            },
            sequence_of_text(binding.sequence@) matches Ok(ps) ==> !command_text_fails(
                binding.command@,
            ) ==> exists|b: KeyBinding|
                {
                    &&& b.spec_sequence()@ == ps
                    &&& command_outcome(
                        lowercase(trimmed(binding.command@)),
                        trimmed(binding.command@),
                        Ok(b.spec_command()),
                    )
                    &&& context_for_plugin(b.spec_context(), binding.context)
                    &&& b.spec_priority() == Priority::Plugin
                    &&& has_conflict(old(self)@.bindings, b) ==> {
                        &&& final(self)@ == old(self)@
                        &&& r matches Err(
                            PluginBindingError::Conflict { sequence, existing_command, plugin },
                        )
                        &&& sequence@ == binding.sequence@
                        &&& exists|j: int|
                            {
                                &&& 0 <= j < old(self)@.bindings.len()
                                &&& conflicting(#[trigger] old(self)@.bindings[j], b)
                                &&& match old(self)@.bindings[j].spec_command() {
                                    EditorCommand::PluginCommand { plugin_name, command_name } => {
                                        &&& existing_command@ == command_name@
                                        &&& plugin@ == plugin_name@
                                    },
                                    other => {
                                        &&& existing_command@ == command_debug(other)
                                        &&& plugin@ == Seq::<char>::empty()
                                    },
                                }
                            }
                    }
                    &&& !has_conflict(old(self)@.bindings, b) ==> {
                        &&& r is Ok
                        &&& same_clock(old(self)@, final(self)@)
                        &&& final(self)@.buffer == old(self)@.buffer
                        &&& exists|pos: int|
                            placed_by_priority(old(self)@.bindings, final(self)@.bindings, b, pos)
                    }
                },
    {
        let sequence = match KeySequence::parse(binding.sequence.as_str()) {
            Ok(seq) => seq,
            Err(e) => {
                return Err(PluginBindingError::InvalidSequence(binding.sequence, e.to_string()));
            },
        };
        let command = match EditorCommand::parse(binding.command.as_str()) {
            Ok(c) => c,
            Err(e) => {
                return Err(PluginBindingError::BuilderValidation(e.to_string()));
            },
        };
        let context = context_of_plugin_context(&binding.context);
        let key_binding = KeyBinding::new(sequence, command, context, Priority::Plugin);
        if let Some(i) = self.find_conflict(&key_binding) {
            let (existing_command, plugin) = match self.bindings[i].command() {
                EditorCommand::PluginCommand { plugin_name, command_name } => (
                    command_name.clone(),
                    plugin_name.clone(),
                ),
                other => (command_debug_text(other), String::new()),
            };
            return Err(
                PluginBindingError::Conflict {
                    sequence: binding.sequence,
                    existing_command,
                    plugin,
                },
            );
        }
        let ghost b = key_binding;
        let result = self.register(key_binding);
        assert(result is Ok);
        assert(exists|pos: int| placed_by_priority(old(self)@.bindings, self@.bindings, b, pos));
        Ok(())
    }
}

} // verus!
