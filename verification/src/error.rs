//! The errors that cross the library's boundary.

use vstd::prelude::*;

verus! {

/// What an operation failed with.
#[derive(Clone, Debug, PartialEq, Eq)]
pub enum Error {
    /// The operating system refused a call and set this error number.
    Errno(i32),
    /// A precondition of the controller itself does not hold; the text says which.
    Domain(String),
    /// The executable is not one that symbols can be read from.
    Malformed,
}

impl Error {
    /// The error number, where the operating system reported the failure.
    pub fn errno(&self) -> (r: Option<i32>)
        ensures
            r == (match *self {
                Error::Errno(code) => Some(code),
                _ => None,
            }),
    {
        match self {
            Error::Errno(code) => Some(*code),
            _ => None,
        }
    }

    /// The text of a domain error.
    pub fn message(&self) -> (r: Option<&String>)
        ensures
            r == (match *self {
                Error::Domain(text) => Some(&text),
                _ => None,
            }),
    {
        match self {
            Error::Domain(text) => Some(text),
            _ => None,
        }
    }
}

} // verus!
