//! Error kinds reported by the voting operations.

use vstd::prelude::*;

verus! {

/// Everything that can go wrong while creating polls or candidates and while
/// casting votes.
///
/// `PollNotStarted`, `PollEnded` and `PollEndedInPast` are reserved for
/// poll-window enforcement, which is deliberately disabled; no operation
/// currently returns them. `AlreadyExists` and `NotFound` are the store-level
/// failures of creating a record at an occupied address and of referencing a
/// missing poll or candidate.
#[derive(Clone, Copy, PartialEq, Eq, Debug)]
pub enum VotingError {
    /// The poll has not started yet (reserved, currently unreachable).
    PollNotStarted,
    /// The poll has already ended (reserved, currently unreachable).
    PollEnded,
    /// A timestamp is zero or at or above the sanity bound.
    InvalidTimestamp,
    /// The poll would end in the past (reserved, currently unreachable).
    PollEndedInPast,
    /// The poll start is not strictly before the poll end.
    InvalidPollDuration,
    /// This identity has already voted on this poll.
    AlreadyVoted,
    /// A record already occupies the derived address.
    AlreadyExists,
    /// The referenced poll or candidate does not exist.
    NotFound,
}

} // verus!
