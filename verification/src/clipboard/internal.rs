//! The in-memory clipboard used when no system clipboard is available.
use vstd::prelude::*;
use super::error::{ClipboardError, ClipboardProvider};

verus! {

/// An in-memory clipboard holding at most one string.
#[derive(Debug)]
pub struct InternalClipboard {
    content: Option<String>,
}

impl View for InternalClipboard {
    type V = Option<Seq<char>>;

    /// The stored text, `None` when nothing was ever stored.
    closed spec fn view(&self) -> Option<Seq<char>> {
        match self.content {
            Some(s) => Some(s@),
            None => None,
        }
    }
}

/// What `get_text` returns for the stored content: the text, or
/// `NotAvailable` when the clipboard is empty.
pub open spec fn stored_text(content: Option<Seq<char>>) -> Result<Seq<char>, ClipboardError> {
    match content {
        Some(t) => Ok(t),
        None => Err(ClipboardError::NotAvailable),
    }
}

impl InternalClipboard {
    /// An empty clipboard.
    pub fn new() -> (r: Self)
        ensures
            r@ is None,
    {
        InternalClipboard { content: None }
    }
}

impl Default for InternalClipboard {
    /// An empty clipboard.
    fn default() -> (r: Self)
        ensures
            r@ is None,
    {
        InternalClipboard::new()
    }
}

impl ClipboardProvider for InternalClipboard {
    /// The stored text; `NotAvailable` when nothing was stored.  The
    /// clipboard is unchanged.
    fn get_text(&mut self) -> (r: Result<String, ClipboardError>)
        ensures
            final(self)@ == old(self)@,
            match stored_text(old(self)@) {
                Ok(t) => r matches Ok(s) && s@ == t,
                Err(e) => r == Err::<String, ClipboardError>(e),
            },
    {
        match &self.content {
            Some(s) => Ok(s.clone()),
            None => Err(ClipboardError::NotAvailable),
        }
    }

    /// Stores `text`, replacing any previous text; always succeeds.
    fn set_text(&mut self, text: &str) -> (r: Result<(), ClipboardError>)
        ensures
            final(self)@ == Some(text@),
            r is Ok,
    {
        self.content = Some(String::from_str(text));
        Ok(())
    }
}

/// What a read gives back of a write: after `set_text(t)` the clipboard
/// reads `t`, whatever it held before, until the next write.
pub proof fn law_get_returns_last_set(t: Seq<char>)
    ensures
        stored_text(Some(t)) == Ok::<Seq<char>, ClipboardError>(t),
        stored_text(None) == Err::<Seq<char>, ClipboardError>(ClipboardError::NotAvailable),
{
}

} // verus!
