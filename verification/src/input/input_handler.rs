//! Turning key presses into commands through the binding registry, one key
//! of a sequence at a time.
use vstd::prelude::*;
use std::time::Duration;
use crate::editor::EditorMode;
use super::command::{EditorCommand, same_command};
use super::keybinding::{KeyBinding, KeyPattern, context_active, is_proper_prefix, priority_level};
use super::keys::KeyEvent;
use super::debug_text::{context_debug, key_sequence_debug};
use super::registry::{
    BindingError, KeyBindingRegistry, RegistryModel, binding_applies, first_applicable,
    has_conflict, placed_by_priority, same_clock, same_timeout,
};

verus! {

/// What a key press gave.
#[derive(Debug, Clone, PartialEq, Eq)]
pub enum MatchResult {
    /// The typed keys ran this command; the sequence starts over.
    Matched(EditorCommand),
    /// The typed keys begin some binding's sequence; more keys are awaited.
    Partial,
    /// The typed keys are no binding's sequence nor the start of one; the
    /// sequence starts over.
    NoMatch,
}

/// Whether some binding active in `mode` has keys that `buffer` properly
/// begins.
pub open spec fn some_partial(model: RegistryModel, mode: EditorMode, buffer: Seq<KeyPattern>) -> bool {
    exists|i: int|
        0 <= i < model.bindings.len() && context_active(
            (#[trigger] model.bindings[i]).spec_context(),
            mode,
        ) && is_proper_prefix(model.bindings[i].spec_sequence()@, buffer)
}

/// Whether no binding applies to `buffer` in `mode`.
pub open spec fn none_applies(model: RegistryModel, mode: EditorMode, buffer: Seq<KeyPattern>) -> bool {
    forall|i: int|
        0 <= i < model.bindings.len() ==> !binding_applies(#[trigger] model.bindings[i], mode, buffer)
}

/// Key presses to commands, through a registry of bindings.
#[derive(Debug)]
pub struct InputHandler {
    registry: KeyBindingRegistry,
}

impl View for InputHandler {
    type V = RegistryModel;

    closed spec fn view(&self) -> RegistryModel {
        self.registry@
    }
}

impl InputHandler {
    /// The registry.
    pub closed spec fn spec_registry(&self) -> KeyBindingRegistry {
        self.registry
    }

    /// A handler with no bindings and a one-second sequence timeout.
    pub fn new() -> (r: Self)
        ensures
            r@.bindings.len() == 0,
            r@.buffer.len() == 0,
            r@.timeout_nanos == 1_000_000_000,
    {
        InputHandler { registry: KeyBindingRegistry::default() }
    }

    /// A handler with no bindings whose sequences expire after `timeout`.
    pub fn with_timeout(timeout: Duration) -> (r: Self)
        ensures
            r@.bindings.len() == 0,
            r@.buffer.len() == 0,
            r@.timeout == timeout,
    {
        InputHandler { registry: KeyBindingRegistry::new(timeout) }
    }

    /// Registers a binding (see [`KeyBindingRegistry::register`]): a
    /// `Conflict` error when one with the same keys, context and priority
    /// exists, else the binding goes to its priority's place.
    pub fn register_binding(&mut self, binding: KeyBinding) -> (r: Result<(), BindingError>)
        ensures
            has_conflict(old(self)@.bindings, binding) ==> {
                &&& final(self)@ == old(self)@
                &&& r matches Err(BindingError::Conflict { sequence, context, priority })
                &&& sequence@ == key_sequence_debug(binding.spec_sequence()@)
                &&& context@ == context_debug(binding.spec_context()@)
                &&& priority == binding.spec_priority()
            },
            !has_conflict(old(self)@.bindings, binding) ==> {
                &&& r is Ok
                &&& same_clock(old(self)@, final(self)@)
                &&& final(self)@.buffer == old(self)@.buffer
                &&& exists|pos: int|
                    placed_by_priority(old(self)@.bindings, final(self)@.bindings, binding, pos)
            },
    {
        self.registry.register(binding)
    }

    /// The registry, to change it.
    pub fn registry_mut(&mut self) -> (r: &mut KeyBindingRegistry)
        ensures
            *r == old(self).spec_registry(),
            final(self).spec_registry() == *final(r),
    {
        &mut self.registry
    }

    /// Adds a key press to the sequence in progress.  When the sequence is
    /// exactly the keys of an active binding, the first such binding's
    /// command is the result and the sequence starts over; when it begins
    /// the keys of an active binding, more keys are awaited; otherwise the
    /// sequence starts over with no command.
    pub fn process_key_event(&mut self, event: KeyEvent, mode: EditorMode) -> (r: MatchResult)
        ensures
            final(self)@.bindings == old(self)@.bindings,
            ({
                let buffer = old(self)@.buffer.push(
                    KeyPattern { code: event.code, modifiers: event.modifiers },
                );
                match r {
                    MatchResult::Matched(c) => {
                        &&& exists|i: int|
                            {
                                &&& first_applicable(old(self)@.bindings, mode, buffer, i)
                                &&& same_command(c, (#[trigger] old(self)@.bindings[i]).spec_command())
                                &&& forall|j: int|
                                    0 <= j < old(self)@.bindings.len() && binding_applies(
                                        #[trigger] old(self)@.bindings[j],
                                        mode,
                                        buffer,
                                    ) ==> priority_level(old(self)@.bindings[j].spec_priority())
                                        <= priority_level(old(self)@.bindings[i].spec_priority())
                            }
                        &&& same_timeout(old(self)@, final(self)@)
                        &&& final(self)@.buffer.len() == 0
                    },
                    MatchResult::Partial => {
                        &&& none_applies(old(self)@, mode, buffer)
                        &&& some_partial(old(self)@, mode, buffer)
                        &&& same_timeout(old(self)@, final(self)@)
                        &&& final(self)@.buffer == buffer
                    },
                    MatchResult::NoMatch => {
                        &&& none_applies(old(self)@, mode, buffer)
                        &&& !some_partial(old(self)@, mode, buffer)
                        &&& same_timeout(old(self)@, final(self)@)
                        &&& final(self)@.buffer.len() == 0
                    },
                }
            }),
    {
        let pattern = KeyPattern::new(event.code, event.modifiers);
        self.registry.add_to_sequence(pattern);
        match self.registry.find_match(mode) {
            Some(command) => {
                let result = MatchResult::Matched(command.copied());
                self.registry.clear_sequence();
                result
            },
            None => {
                if self.registry.is_partial_match(mode) {
                    MatchResult::Partial
                } else {
                    self.registry.clear_sequence();
                    MatchResult::NoMatch
                }
            },
        }
    }

    /// Forgets the sequence in progress, as a mode change does.
    pub fn on_mode_change(&mut self)
        ensures
            final(self)@.bindings == old(self)@.bindings,
            same_clock(old(self)@, final(self)@),
            final(self)@.buffer.len() == 0,
    {
        self.registry.clear_sequence();
    }

    /// Forgets the sequence in progress when it has timed out (see
    /// [`KeyBindingRegistry::check_timeout`]); says whether it did.
    pub fn check_timeout(&mut self) -> (r: bool)
        ensures
            final(self)@.bindings == old(self)@.bindings,
            old(self)@.buffer.len() == 0 ==> !r,
            old(self)@.buffer.len() > 0 && old(self)@.timeout_nanos == 0 ==> r,
            same_clock(old(self)@, final(self)@),
            final(self)@.buffer == (if r {
                Seq::<KeyPattern>::empty()
            } else {
                old(self)@.buffer
            }),
    {
        self.registry.check_timeout()
    }
}

impl Default for InputHandler {
    /// Same as [`InputHandler::new`].
    fn default() -> (r: Self)
        ensures
            r@.bindings.len() == 0,
            r@.buffer.len() == 0,
            r@.timeout_nanos == 1_000_000_000,
    {
        InputHandler::new()
    }
}

} // verus!
