//! The two ways in which an operation fails.

use vstd::prelude::*;

verus! {

/// What a polyline of more points than the native library can count is refused with.
pub const TOO_MANY_POINTS: &'static str = "beryllium error: len cannot exceed `i32::MAX`.";

/// Why an operation failed.
#[derive(Debug, PartialEq, Eq)]
pub enum ErrorKind {
    /// An argument was refused before any native call was made. The caller can
    /// mend the argument and try again.
    Validation(&'static str),
    /// The native library reported failure. The text is its last-error string,
    /// as it stood right after the failing call.
    Native(String),
}

/// The native library reported failure, and its last-error text is still to be
/// fetched. That has to happen at once, before any other native call can
/// overwrite the text.
#[derive(Debug, PartialEq, Eq)]
pub struct NativeFailure;

impl NativeFailure {
    /// The error that the failed operation returns: the native error that
    /// carries the last-error text, unchanged.
    pub fn with_message(self, last_error: String) -> (error: ErrorKind)
        ensures
            error == ErrorKind::Native(last_error),
    {
        ErrorKind::Native(last_error)
    }
}

impl ErrorKind {
    /// The text that the error carries.
    pub open spec fn text(self) -> Seq<char> {
        match self {
            ErrorKind::Validation(message) => message@,
            ErrorKind::Native(message) => message@,
        }
    }

    /// The text that the error carries, as an owned string.
    pub fn message(&self) -> (text: String)
        ensures
            text@ == self.text(),
    {
        match self {
            ErrorKind::Validation(message) => {
                let text: &str = message;
                text.to_owned()
            },
            ErrorKind::Native(message) => message.clone(),
        }
    }
}

} // verus!
