//! Ledger-wide laws: what the operations' contracts add up to.

use crate::ledger::candidate_count;
use crate::ledger::has_poll;
use crate::ledger::voted_count;
use crate::ledger::votes_sum;
use crate::ledger::Ledger;
use crate::records::Poll;
use vstd::prelude::*;

verus! {

/// A poll, once created, occupies its derived address for good: after
/// `Ledger::initialize_poll` succeeds for some `poll_id` the store holds a
/// poll with that identifier, so by `initialize_poll`'s contract every later
/// creation attempt for the same identifier — however its window is chosen,
/// as long as it passes the timestamp and ordering checks — fails with
/// `AlreadyExists`. Creation therefore succeeds at most once per identifier.
pub proof fn lemma_poll_creation_is_exclusive(polls: Seq<Poll>, p: Poll)
    ensures
        has_poll(polls.push(p), p.poll_id),
{
    assert(polls.push(p)[polls.len() as int].poll_id == p.poll_id);
}

/// The counting invariant, read off the ledger invariant: in every
/// well-formed ledger, each poll's `total_votes` equals the sum of the
/// `candidate_votes` counters of exactly the candidates registered under
/// it. Every operation's contract ends in a well-formed ledger, so this
/// holds at every observable point.
pub proof fn lemma_total_votes_matches_candidate_sum(l: Ledger, i: int)
    requires
        l.wf(),
        0 <= i < l.polls@.len(),
    ensures
        l.polls@[i].total_votes == votes_sum(l.candidates@, l.polls@[i].poll_id),
{
}

/// One identity, one vote: in every well-formed ledger, each poll's
/// `total_votes` also equals the number of voter records marked voted for
/// it. Together with the uniqueness of voter-record addresses this says
/// that every identity contributes at most one vote to each poll — the
/// exclusivity that `Ledger::vote` enforces through the `AlreadyVoted`
/// check.
pub proof fn lemma_total_votes_matches_voter_count(l: Ledger, i: int)
    requires
        l.wf(),
        0 <= i < l.polls@.len(),
    ensures
        l.polls@[i].total_votes == voted_count(l.voters@, l.polls@[i].poll_id),
{
}

/// The registration counter is exact: in every well-formed ledger, each
/// poll's `candidate_amount` equals the number of candidate records
/// registered under it, so each successful `Ledger::initialize_candidate`
/// raises it by exactly one and nothing else moves it.
pub proof fn lemma_candidate_amount_matches_count(l: Ledger, i: int)
    requires
        l.wf(),
        0 <= i < l.polls@.len(),
    ensures
        l.polls@[i].candidate_amount == candidate_count(l.candidates@, l.polls@[i].poll_id),
{
}

} // verus!
