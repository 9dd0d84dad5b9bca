use vstd::prelude::*;

verus! {

/// The failure kinds the core distinguishes. None of them is fatal for a
/// whole tick: each aborts at most the piece of work it names.
#[derive(Clone, Copy, PartialEq, Eq, Structural, Debug)]
pub enum ErrorKind {
    /// A feed entry misses a required field or a field is out of range.
    MalformedRecord,
    /// A secondary lookup (a post by id, or the children of a post) failed.
    LookupFailed,
    /// The delivery cache could not be read; the member counts as not delivered.
    CacheReadFailed,
    /// The delivery cache could not be written; the unit may be resent later.
    CacheWriteFailed,
    /// The transport refused the send for now; retried once, then terminal.
    RateLimited,
    /// Any other transport failure; terminal for the attempt, no retry.
    TransportError,
}

} // verus!
