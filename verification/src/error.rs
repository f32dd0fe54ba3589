//! Cache error types.
use vstd::prelude::*;

verus! {

/// A fault that ends a request. Content that cannot be decoded is no fault:
/// such a file counts as empty.
#[derive(Clone, Copy, Debug, PartialEq, Eq, Structural)]
pub enum Error {
    /// A file could not be opened, locked, read or written.
    Io,
    /// Text was not valid UTF-8.
    Utf8,
}

/// The text that describes an error.
pub open spec fn error_text(error: Error) -> Seq<char> {
    match error {
        Error::Io => "input/output error"@,
        Error::Utf8 => "invalid UTF-8"@,
    }
}

impl Error {
    /// A short description of the error.
    pub fn message(&self) -> (text: String)
        ensures
            text@ == error_text(*self),
    {
        match self {
            Error::Io => "input/output error".to_owned(),
            Error::Utf8 => "invalid UTF-8".to_owned(),
        }
    }
}

} // verus!
