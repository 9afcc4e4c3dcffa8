//! Clipboard errors and the provider interface.
use vstd::prelude::*;
use crate::textops::{contains_str, has_substring, to_lowercase, lowercase};

verus! {

/// Why a clipboard operation failed.
#[derive(Debug, Clone, PartialEq, Eq)]
pub enum ClipboardError {
    /// No clipboard on this system (headless, no display server, empty).
    NotAvailable,
    /// Access to the clipboard was refused.
    AccessDenied,
    /// The clipboard holds data that is not valid text.
    InvalidData,
    /// Any other platform error, with its message.
    SystemError(String),
}

/// The human-readable message of a clipboard error.
pub open spec fn clipboard_error_message(e: ClipboardError) -> Seq<char> {
    match e {
        ClipboardError::NotAvailable => "Clipboard is not available on this system"@,
        ClipboardError::AccessDenied => "Access to clipboard was denied"@,
        ClipboardError::InvalidData => "Clipboard data is invalid or corrupted"@,
        ClipboardError::SystemError(m) => "System clipboard error: "@ + m@,
    }
}

impl ClipboardError {
    /// The human-readable message of the error.
    pub fn to_string(&self) -> (r: String)
        ensures
            r@ == clipboard_error_message(*self),
    {
        match self {
            ClipboardError::NotAvailable => String::from_str(
                "Clipboard is not available on this system",
            ),
            ClipboardError::AccessDenied => String::from_str("Access to clipboard was denied"),
            ClipboardError::InvalidData => String::from_str(
                "Clipboard data is invalid or corrupted",
            ),
            ClipboardError::SystemError(m) => {
                let mut r = String::from_str("System clipboard error: ");
                r.append(m.as_str());
                r
            },
        }
    }
}

/// A place text can be copied to and pasted from.
pub trait ClipboardProvider: Send {
    /// The clipboard's text.
    fn get_text(&mut self) -> Result<String, ClipboardError>;

    /// Replaces the clipboard's text.
    fn set_text(&mut self, text: &str) -> Result<(), ClipboardError>;
}

/// The error for a failed read of the system clipboard, given the
/// platform's message (matched in lowercase).
pub open spec fn get_error_kind(lower: Seq<char>) -> int {
    if has_substring(lower, "not available"@) || has_substring(lower, "empty"@) {
        0
    } else if has_substring(lower, "denied"@) || has_substring(lower, "permission"@) {
        1
    } else if has_substring(lower, "invalid"@) || has_substring(lower, "utf"@) {
        2
    } else {
        3
    }
}

/// Classifies the message of a failure to open the system clipboard:
/// `NotAvailable` when it mentions "not available", "no display" or
/// "DISPLAY", otherwise a `SystemError` carrying the message.
pub fn init_error_from_message(msg: &str) -> (r: ClipboardError)
    ensures
        if has_substring(msg@, "not available"@) || has_substring(msg@, "no display"@)
            || has_substring(msg@, "DISPLAY"@) {
            r == ClipboardError::NotAvailable
        } else {
            r matches ClipboardError::SystemError(m) && m@ == msg@
        },
{
    if contains_str(msg, "not available") || contains_str(msg, "no display") || contains_str(
        msg,
        "DISPLAY",
    ) {
        ClipboardError::NotAvailable
    } else {
        ClipboardError::SystemError(String::from_str(msg))
    }
}

/// Classifies the message of a failed read of the system clipboard, in
/// lowercase: "not available" or "empty" give `NotAvailable`, "denied" or
/// "permission" `AccessDenied`, "invalid" or "utf" `InvalidData`, anything
/// else a `SystemError` carrying the original message.
pub fn get_error_from_message(msg: &str) -> (r: ClipboardError)
    ensures
        ({
            let lower = lowercase(msg@);
            &&& get_error_kind(lower) == 0 ==> r == ClipboardError::NotAvailable
            &&& get_error_kind(lower) == 1 ==> r == ClipboardError::AccessDenied
            &&& get_error_kind(lower) == 2 ==> r == ClipboardError::InvalidData
            &&& get_error_kind(lower) == 3 ==> (r matches ClipboardError::SystemError(m) && m@
                == msg@)
        }),
{
    let lower = to_lowercase(msg);
    let l = lower.as_str();
    if contains_str(l, "not available") || contains_str(l, "empty") {
        ClipboardError::NotAvailable
    } else if contains_str(l, "denied") || contains_str(l, "permission") {
        ClipboardError::AccessDenied
    } else if contains_str(l, "invalid") || contains_str(l, "utf") {
        ClipboardError::InvalidData
    } else {
        ClipboardError::SystemError(String::from_str(msg))
    }
}

/// Classifies the message of a failed write to the system clipboard, in
/// lowercase: "not available" gives `NotAvailable`, "denied" or
/// "permission" `AccessDenied`, anything else a `SystemError` carrying the
/// original message.
pub fn set_error_from_message(msg: &str) -> (r: ClipboardError)
    ensures
        ({
            let lower = lowercase(msg@);
            if has_substring(lower, "not available"@) {
                r == ClipboardError::NotAvailable
            } else if has_substring(lower, "denied"@) || has_substring(lower, "permission"@) {
                r == ClipboardError::AccessDenied
            } else {
                r matches ClipboardError::SystemError(m) && m@ == msg@
            }
        }),
{
    let lower = to_lowercase(msg);
    let l = lower.as_str();
    if contains_str(l, "not available") {
        ClipboardError::NotAvailable
    } else if contains_str(l, "denied") || contains_str(l, "permission") {
        ClipboardError::AccessDenied
    } else {
        ClipboardError::SystemError(String::from_str(msg))
    }
}

} // verus!
