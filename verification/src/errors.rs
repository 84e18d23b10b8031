//! The library's error kinds and their wire-protocol error codes.

use vstd::prelude::*;

verus! {

/// Everything that can go wrong inside the client, by category. Stubbed
/// capabilities fail with `NotImplementedError` so callers can tell "will
/// never work" from transient failures.
#[derive(Debug, PartialEq)]
pub enum Error {
    NotImplementedError { name: String },
    ConnectError { t: String },
    NoSuchTaskError { id: u64 },
    AlreadyAttachedError { url: String },
    AuthError { what: String },
    InvalidURLError { url: String },
    UserPermissionError { what: String },
    InternalError { what: String },
    DataParseError { what: String },
    InvalidStateError { what: String },
}

/// The wire-protocol error code of each error kind.
pub open spec fn spec_rpc_id(e: Error) -> i64 {
    match e {
        Error::AlreadyAttachedError { .. } => -130i64,
        Error::AuthError { .. } => -155i64,
        Error::InvalidURLError { .. } => -189i64,
        Error::UserPermissionError { .. } => -201i64,
        _ => -1i64,
    }
}

impl Error {
    /// The numeric error code reported over the control-plane protocol.
    pub fn rpc_id(&self) -> (r: i64)
        ensures
            r == spec_rpc_id(*self),
    {
        match self {
            Error::AlreadyAttachedError { .. } => -130,
            Error::AuthError { .. } => -155,
            Error::InvalidURLError { .. } => -189,
            Error::UserPermissionError { .. } => -201,
            _ => -1,
        }
    }
}

} // verus!
