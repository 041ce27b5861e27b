//! The kinds of failure that the engine reports.

use vstd::prelude::*;
use vstd::string::StringExecFns;

verus! {

/// Why an operation of the engine failed.
#[derive(Debug, Clone, Copy, PartialEq, Eq, Structural)]
pub enum ErrorKind {
    /// A buffer was too short for what it should hold, or named the wrong
    /// protocol.
    ParseError,
    /// A name, an identifier or a path was not resolved within its retries or
    /// its deadline.
    ResolutionFailure,
    /// Neighbour discovery ran out of attempts.
    UnreachableHost,
    /// A socket operation failed.
    IOError,
    /// An interface is missing or a setting cannot be used.
    ConfigError,
    /// A table's lock cannot be recovered.
    LockPoisoned,
}

impl ErrorKind {
    /// A short text for people.
    pub fn message(&self) -> (text: String)
        ensures
            text@ == match *self {
                ErrorKind::ParseError => "parse error"@,
                ErrorKind::ResolutionFailure => "couldn't resolve host"@,
                ErrorKind::UnreachableHost => "host unreachable"@,
                ErrorKind::IOError => "i/o error"@,
                ErrorKind::ConfigError => "interface not found"@,
                ErrorKind::LockPoisoned => "lock poisoned"@,
            },
    {
        match self {
            ErrorKind::ParseError => String::from_str("parse error"),
            ErrorKind::ResolutionFailure => String::from_str("couldn't resolve host"),
            ErrorKind::UnreachableHost => String::from_str("host unreachable"),
            ErrorKind::IOError => String::from_str("i/o error"),
            ErrorKind::ConfigError => String::from_str("interface not found"),
            ErrorKind::LockPoisoned => String::from_str("lock poisoned"),
        }
    }
}

} // verus!
