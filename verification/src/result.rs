//! Unwrapping a `Result`: the value, or the diagnostic for `Err`.

use crate::note::{note_of, push_suffix, suffix};
use vstd::prelude::*;

verus! {

/// The diagnostic for unwrapping an `Err`, with the caller's message.
pub open spec fn unwrap_failure_text(note: Option<Seq<char>>) -> Seq<char> {
    "called `Result::unwrap()` on an `Err` value"@ + suffix(note)
}

/// Writes the diagnostic for unwrapping an `Err`.
pub fn unwrap_failure_message(msg: Option<&str>) -> (r: String)
    ensures
        r@ == unwrap_failure_text(note_of(msg)),
{
    let mut out = "called `Result::unwrap()` on an `Err` value".to_owned();
    push_suffix(&mut out, msg);
    out
}

/// Unwrapping with a diagnostic: the value of an `Ok`, or else the text
/// that says that there was an `Err`, with the caller's message after it.
/// The error itself is not written.
pub trait ResultExt<T>: Sized {
    /// The value of the `Ok`, if it is one.
    spec fn held(self) -> Option<T>;

    /// Unwraps; the diagnostic carries no message of the caller.
    fn unwrap_unchecked_dbg(self) -> (r: Result<T, String>)
        ensures
            match r {
                Ok(value) => self.held() == Some(value),
                Err(text) => self.held() is None && text@ == unwrap_failure_text(None),
            },
    ;

    /// Unwraps; the diagnostic ends with `msg`.
    fn unwrap_unchecked_dbg_msg(self, msg: &'static str) -> (r: Result<T, String>)
        ensures
            match r {
                Ok(value) => self.held() == Some(value),
                Err(text) => self.held() is None && text@ == unwrap_failure_text(Some(msg@)),
            },
    ;

    /// Unwraps; the diagnostic ends with `fmt`, a message that the caller
    /// has formatted.
    fn unwrap_unchecked_dbg_fmt(self, fmt: &str) -> (r: Result<T, String>)
        ensures
            match r {
                Ok(value) => self.held() == Some(value),
                Err(text) => self.held() is None && text@ == unwrap_failure_text(Some(fmt@)),
            },
    ;
}

impl<T, E> ResultExt<T> for Result<T, E> {
    open spec fn held(self) -> Option<T> {
        match self {
            Ok(value) => Some(value),
            Err(_) => None,
        }
    }

    fn unwrap_unchecked_dbg(self) -> (r: Result<T, String>) {
        match self {
            Ok(value) => Ok(value),
            Err(_) => Err(unwrap_failure_message(None)),
        }
    }

    fn unwrap_unchecked_dbg_msg(self, msg: &'static str) -> (r: Result<T, String>) {
        match self {
            Ok(value) => Ok(value),
            Err(_) => Err(unwrap_failure_message(Some(msg))),
        }
    }

    fn unwrap_unchecked_dbg_fmt(self, fmt: &str) -> (r: Result<T, String>) {
        match self {
            Ok(value) => Ok(value),
            Err(_) => Err(unwrap_failure_message(Some(fmt))),
        }
    }
}

} // verus!
