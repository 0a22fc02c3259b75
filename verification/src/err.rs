//! The error taxonomy of a sync run.
//!
//! Configuration errors are found before any remote call; the remaining
//! variants carry the HTTP status and body of the offending response as
//! structured fields, so callers can tell failure kinds apart.

use vstd::prelude::*;

verus! {

/// Why a sync run stops.
#[derive(Debug)]
pub enum SyncError {
    /// The target argument was not an `owner/name` pair with exactly one
    /// separating slash.
    MalformedRepository { input: String },
    /// The single-environment selector names no environment of the document.
    EnvironmentNotInConfig { name: String },
    /// The initial repository lookup answered with a non-success status.
    RepositoryLookup { status: u16, body: String },
    /// An environment or variable call answered with a non-success status.
    Operation { status: u16, body: String },
    /// A success answer whose body could not be decoded.
    MalformedResponse { body: String },
}

} // verus!
