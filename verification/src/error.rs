//! Error taxonomy of the secure-operations core.
//!
//! `Configuration` marks invalid setup, `Crypto` recoverable cryptographic
//! failures (malformed input, authentication failure, rotation-gate
//! violations, vendor operation failures), `Unavailable` the absence of any
//! healthy key-custody backend, and `Serialization` malformed structured
//! payloads handed to tokenization.

use vstd::prelude::*;

verus! {

/// Error returned by the secure-operations core.
#[derive(Debug, Clone)]
pub enum Error {
    /// Missing or invalid setup, unrecoverable at startup.
    Configuration(String),
    /// Malformed input, authentication failure, rotation-gate violation, or a
    /// vendor operation failure; recoverable by the caller.
    Crypto(String),
    /// No healthy key-custody backend is reachable.
    Unavailable(String),
    /// Malformed structured payload passed to tokenization.
    Serialization(String),
}

/// The variant of an [`Error`], without its diagnostic message.
#[derive(Debug, Clone, Copy, PartialEq, Eq, Structural)]
pub enum ErrorKind {
    Configuration,
    Crypto,
    Unavailable,
    Serialization,
}

impl Error {
    /// The variant of this error as a plain tag.
    pub fn kind(&self) -> (k: ErrorKind)
        ensures
            k == ErrorKind::Configuration <==> self is Configuration,
            k == ErrorKind::Crypto <==> self is Crypto,
            k == ErrorKind::Unavailable <==> self is Unavailable,
            k == ErrorKind::Serialization <==> self is Serialization,
    {
        match self {
            Error::Configuration(_) => ErrorKind::Configuration,
            Error::Crypto(_) => ErrorKind::Crypto,
            Error::Unavailable(_) => ErrorKind::Unavailable,
            Error::Serialization(_) => ErrorKind::Serialization,
        }
    }

    /// The diagnostic message carried by this error.
    pub fn message(&self) -> (m: &String)
        ensures
            m@ == self.spec_message(),
    {
        match self {
            Error::Configuration(m) => m,
            Error::Crypto(m) => m,
            Error::Unavailable(m) => m,
            Error::Serialization(m) => m,
        }
    }

    /// The diagnostic message, at the specification level.
    pub open spec fn spec_message(&self) -> Seq<char> {
        match self {
            Error::Configuration(m) => m@,
            Error::Crypto(m) => m@,
            Error::Unavailable(m) => m@,
            Error::Serialization(m) => m@,
        }
    }
}

} // verus!
