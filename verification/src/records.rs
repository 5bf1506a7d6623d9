//! The persisted record schemas: polls, candidates, and voter records.

use crate::address::Address;
use crate::validate::valid_unix_timestamp;
use vstd::prelude::*;

verus! {

/// Number of bytes a poll description may occupy at most.
pub const MAX_DESCRIPTION_BYTES: usize = 200;

/// Number of bytes a candidate name may occupy at most.
pub const MAX_CANDIDATE_NAME_BYTES: usize = 32;

/// A votable topic with a nominal active window and two running counters.
pub struct Poll {
    /// Unique identifier of the poll; also its address seed.
    pub poll_id: u64,
    /// Free-form description, at most [`MAX_DESCRIPTION_BYTES`] bytes.
    pub description: Vec<u8>,
    /// Unix timestamp at which the poll nominally opens.
    pub poll_start: u64,
    /// Unix timestamp at which the poll nominally closes.
    pub poll_end: u64,
    /// How many candidates have been registered under this poll.
    pub candidate_amount: u64,
    /// How many votes have been cast on this poll in total.
    pub total_votes: u64,
}

/// A choice belonging to exactly one poll, with its own vote counter.
pub struct Candidate {
    /// Name of the candidate, at most [`MAX_CANDIDATE_NAME_BYTES`] bytes;
    /// together with the owning poll's identifier it is the address seed.
    pub candidate_name: Vec<u8>,
    /// How many votes this candidate has received.
    pub candidate_votes: u64,
}

/// The durable marker preventing one identity from voting twice on one poll.
pub struct VoterRecord {
    /// Whether this identity has cast its vote on this poll.
    pub voted: bool,
    /// Non-owning back-reference to the poll's storage address.
    pub poll: Address,
}

/// A stored poll is well-formed when its window is ordered, both endpoints
/// are inside the timestamp sanity bound, and its description fits the
/// schema's byte budget.
pub open spec fn poll_wf(p: Poll) -> bool {
    &&& valid_unix_timestamp(p.poll_start)
    &&& valid_unix_timestamp(p.poll_end)
    &&& p.poll_start < p.poll_end
    &&& p.description@.len() <= MAX_DESCRIPTION_BYTES
}

/// A stored candidate is well-formed when its name fits the schema's byte
/// budget.
pub open spec fn candidate_wf(c: Candidate) -> bool {
    c.candidate_name@.len() <= MAX_CANDIDATE_NAME_BYTES
}

} // verus!
