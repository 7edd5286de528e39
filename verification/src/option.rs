//! Unwrapping an `Option`: the value, or the diagnostic for `None`.

use crate::note::{note_of, push_suffix, suffix};
use vstd::prelude::*;

verus! {

/// The diagnostic for unwrapping `None`, with the caller's message.
pub open spec fn unwrap_failure_text(note: Option<Seq<char>>) -> Seq<char> {
    "called `Option::unwrap()` on a `None` value"@ + suffix(note)
}

/// Writes the diagnostic for unwrapping `None`.
pub fn unwrap_failure_message(msg: Option<&str>) -> (r: String)
    ensures
        r@ == unwrap_failure_text(note_of(msg)),
{
    let mut out = "called `Option::unwrap()` on a `None` value".to_owned();
    push_suffix(&mut out, msg);
    out
}

/// Unwrapping with a diagnostic: the value that is held, or else the text
/// that says that none was, with the caller's message after it.
pub trait OptionExt<T>: Sized {
    /// The value that is held, if any.
    spec fn held(self) -> Option<T>;

    /// Unwraps; the diagnostic carries no message of the caller.
    fn unwrap_unchecked_dbg(self) -> (r: Result<T, String>)
        ensures
            match r {
                Ok(value) => self.held() == Some(value),
                Err(text) => self.held() is None && text@ == unwrap_failure_text(None),
            },
    ;

    /// Unwraps; the diagnostic ends with `msg`.
    fn unwrap_unchecked_dbg_msg(self, msg: &'static str) -> (r: Result<T, String>)
        ensures
            match r {
                Ok(value) => self.held() == Some(value),
                Err(text) => self.held() is None && text@ == unwrap_failure_text(Some(msg@)),
            },
    ;

    /// Unwraps; the diagnostic ends with `fmt`, a message that the caller
    /// has formatted.
    fn unwrap_unchecked_dbg_fmt(self, fmt: &str) -> (r: Result<T, String>)
        ensures
            match r {
                Ok(value) => self.held() == Some(value),
                Err(text) => self.held() is None && text@ == unwrap_failure_text(Some(fmt@)),
            },
    ;
}

impl<T> OptionExt<T> for Option<T> {
    open spec fn held(self) -> Option<T> {
        self
    }

    fn unwrap_unchecked_dbg(self) -> (r: Result<T, String>) {
        match self {
            Some(value) => Ok(value),
            None => Err(unwrap_failure_message(None)),
        }
    }

    fn unwrap_unchecked_dbg_msg(self, msg: &'static str) -> (r: Result<T, String>) {
        match self {
            Some(value) => Ok(value),
            None => Err(unwrap_failure_message(Some(msg))),
        }
    }

    fn unwrap_unchecked_dbg_fmt(self, fmt: &str) -> (r: Result<T, String>) {
        match self {
            Some(value) => Ok(value),
            None => Err(unwrap_failure_message(Some(fmt))),
        }
    }
}

} // verus!
