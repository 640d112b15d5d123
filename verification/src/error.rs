//! The ways in which recognising, resolving and posting fail.

use vstd::prelude::*;

verus! {

/// Why an operation on a forum URL failed.
#[derive(Debug, Clone, Copy, PartialEq, Eq, Structural)]
pub enum BbsError {
    /// The URL matches no known forum pattern.
    Classification,
    /// The board's index could not be fetched, or names no latest thread.
    Discovery,
    /// The transport failed before the server answered.
    FetchTransport,
    /// The server answered with this status, which is outside 200..=299.
    FetchStatus(u16),
    /// The charset label names no known encoding.
    Encoding,
}

impl BbsError {
    /// A short description for the user.
    pub fn message(&self) -> (r: &'static str)
        ensures
            r@ == match *self {
                BbsError::Classification => "unsupported URL"@,
                BbsError::Discovery => "could not determine latest thread"@,
                BbsError::FetchTransport => "fetch failed"@,
                BbsError::FetchStatus(_) => "fetch failed with an error status"@,
                BbsError::Encoding => "unknown charset"@,
            },
    {
        match self {
            BbsError::Classification => "unsupported URL",
            BbsError::Discovery => "could not determine latest thread",
            BbsError::FetchTransport => "fetch failed",
            BbsError::FetchStatus(_) => "fetch failed with an error status",
            BbsError::Encoding => "unknown charset",
        }
    }
}

} // verus!
