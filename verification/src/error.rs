//! The error taxonomy: client faults against backend faults.
//!
//! A client fault is anything a request could have caused on its own: a
//! malformed identifier cookie, a cookie that fails its tamper check, or a
//! malformed record in a client-held cookie.  A backend fault is anything on
//! the server side: a failed connection or store command.  No error is retried
//! or swallowed here; every one is handed to the caller.

use vstd::prelude::*;

verus! {

/// Which side is at fault, hence which response class an error maps to.
#[derive(Clone, Copy, Debug, PartialEq, Eq, Structural)]
pub enum ErrorClass {
    /// The request is at fault: map to a client-error response.
    Client,
    /// The server side is at fault: map to a server-error response.
    Backend,
}

/// Why reading a session failed.
#[derive(Clone, Debug)]
pub enum ReadError {
    /// The identifier cookie did not parse as a session identifier.
    BadSessionId,
    /// A signed or encrypted cookie failed its integrity check.
    TamperedCookie,
    /// A client-held record was present but not a JSON object of strings.
    MalformedRecord,
    /// Connecting to or querying the backing store failed.
    Backend(String),
}

impl ReadError {
    /// The class this error maps to.
    pub open spec fn spec_class(&self) -> ErrorClass {
        match self {
            ReadError::Backend(_) => ErrorClass::Backend,
            _ => ErrorClass::Client,
        }
    }

    /// Which response class the error belongs to.
    pub fn class(&self) -> (c: ErrorClass)
        ensures
            c == self.spec_class(),
    {
        match self {
            ReadError::Backend(_) => ErrorClass::Backend,
            _ => ErrorClass::Client,
        }
    }
}

/// Why writing a session back failed.
#[derive(Clone, Debug)]
pub enum WriteError {
    /// A store command against the backing store failed.
    Backend(String),
}

impl WriteError {
    /// The class this error maps to: a write failure is always the backend's.
    pub fn class(&self) -> (c: ErrorClass)
        ensures
            c == ErrorClass::Backend,
    {
        ErrorClass::Backend
    }
}

} // verus!
