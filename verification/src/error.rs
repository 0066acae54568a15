//! The errors that the core hands to its caller.

use vstd::prelude::*;

verus! {

/// Why an operation of the core did not produce a result.
#[derive(Clone, Copy, Debug, PartialEq, Eq, Structural)]
pub enum ErrorKind {
    /// A decoded access width is none of 1, 2, 4 and 8 bytes.
    InvalidInput,
    /// A permission fault, an unknown power-state function, or a feature that is switched off.
    Unsupported,
    /// The syndrome was asked for a field that its exception class does not have.
    IllFormed,
    /// Virtualization was enabled on a CPU on which it already is.
    AlreadyEnabled,
    /// Virtualization was disabled on a CPU on which it is not enabled.
    NotEnabled,
}

impl ErrorKind {
    /// The name of the error, for messages.
    pub fn name(&self) -> (s: &'static str)
        ensures
            s@ == (match *self {
                ErrorKind::InvalidInput => "InvalidInput"@,
                ErrorKind::Unsupported => "Unsupported"@,
                ErrorKind::IllFormed => "IllFormed"@,
                ErrorKind::AlreadyEnabled => "AlreadyEnabled"@,
                ErrorKind::NotEnabled => "NotEnabled"@,
            }),
    {
        match self {
            ErrorKind::InvalidInput => "InvalidInput",
            ErrorKind::Unsupported => "Unsupported",
            ErrorKind::IllFormed => "IllFormed",
            ErrorKind::AlreadyEnabled => "AlreadyEnabled",
            ErrorKind::NotEnabled => "NotEnabled",
        }
    }
}

} // verus!
