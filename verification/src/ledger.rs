//! The transactional keyed store holding all poll state, and the three
//! atomic operations against it.
//!
//! The store keeps one collection per record kind, each entry carrying the
//! seed data its address is derived from. Create-if-absent (polls and
//! candidates) and get-or-create (voter records) are expressed by looking
//! the derived key up before any mutation, so a failed operation leaves the
//! ledger exactly as it was — the atomicity the external runtime would
//! otherwise provide.

use crate::address::derive_poll_address;
use crate::address::Address;
use crate::error::VotingError;
use crate::records::Candidate;
use crate::records::Poll;
use crate::records::VoterRecord;
use crate::records::candidate_wf;
use crate::records::poll_wf;
use crate::records::MAX_CANDIDATE_NAME_BYTES;
use crate::records::MAX_DESCRIPTION_BYTES;
use crate::validate::is_valid_unix_timestamp;
use crate::validate::valid_unix_timestamp;
use vstd::prelude::*;

verus! {

/// A candidate record together with the poll it is registered under; the
/// pair `(poll_id, candidate.candidate_name)` is the entry's address seed.
pub struct CandidateEntry {
    /// Identifier of the owning poll.
    pub poll_id: u64,
    /// The stored candidate record.
    pub candidate: Candidate,
}

/// A voter record together with its address seed `(voter, poll_id)`.
pub struct VoterEntry {
    /// The voting identity the record belongs to.
    pub voter: Vec<u8>,
    /// Identifier of the poll the record belongs to.
    pub poll_id: u64,
    /// The stored voter record.
    pub record: VoterRecord,
}

/// The keyed store: every record of the system, addressed by its seed data.
pub struct Ledger {
    /// All poll records, keyed by their `poll_id` field.
    pub polls: Vec<Poll>,
    /// All candidate records, keyed by `(poll_id, candidate_name)`.
    pub candidates: Vec<CandidateEntry>,
    /// All voter records, keyed by `(voter, poll_id)`.
    pub voters: Vec<VoterEntry>,
}

/// Whether some poll with identifier `poll_id` is stored.
pub open spec fn has_poll(polls: Seq<Poll>, poll_id: u64) -> bool {
    exists|i: int| 0 <= i < polls.len() && polls[i].poll_id == poll_id
}

/// Index of the poll with identifier `poll_id`; meaningful only when
/// `has_poll` holds and poll identifiers are unique.
pub open spec fn poll_index(polls: Seq<Poll>, poll_id: u64) -> int {
    choose|i: int| 0 <= i < polls.len() && polls[i].poll_id == poll_id
}

/// The stored poll with identifier `poll_id`; meaningful only when
/// `has_poll` holds.
pub open spec fn poll_at(polls: Seq<Poll>, poll_id: u64) -> Poll {
    polls[poll_index(polls, poll_id)]
}

/// Whether a candidate named `name` is registered under poll `poll_id`.
pub open spec fn has_candidate(cands: Seq<CandidateEntry>, poll_id: u64, name: Seq<u8>) -> bool {
    exists|i: int|
        0 <= i < cands.len() && cands[i].poll_id == poll_id
            && cands[i].candidate.candidate_name@ == name
}

/// Index of the candidate entry keyed `(poll_id, name)`; meaningful only
/// when `has_candidate` holds and candidate keys are unique.
pub open spec fn candidate_index(cands: Seq<CandidateEntry>, poll_id: u64, name: Seq<u8>) -> int {
    choose|i: int|
        0 <= i < cands.len() && cands[i].poll_id == poll_id
            && cands[i].candidate.candidate_name@ == name
}

/// The stored candidate keyed `(poll_id, name)`; meaningful only when
/// `has_candidate` holds.
pub open spec fn candidate_at(cands: Seq<CandidateEntry>, poll_id: u64, name: Seq<u8>) -> Candidate {
    cands[candidate_index(cands, poll_id, name)].candidate
}

/// Whether a voter record keyed `(voter, poll_id)` is stored.
pub open spec fn has_voter(voters: Seq<VoterEntry>, voter: Seq<u8>, poll_id: u64) -> bool {
    exists|i: int|
        0 <= i < voters.len() && voters[i].voter@ == voter && voters[i].poll_id == poll_id
}

/// Index of the voter entry keyed `(voter, poll_id)`; meaningful only when
/// `has_voter` holds and voter keys are unique.
pub open spec fn voter_index(voters: Seq<VoterEntry>, voter: Seq<u8>, poll_id: u64) -> int {
    choose|i: int|
        0 <= i < voters.len() && voters[i].voter@ == voter && voters[i].poll_id == poll_id
}

/// The stored voter record keyed `(voter, poll_id)`; meaningful only when
/// `has_voter` holds.
pub open spec fn voter_record_at(voters: Seq<VoterEntry>, voter: Seq<u8>, poll_id: u64) -> VoterRecord {
    voters[voter_index(voters, voter, poll_id)].record
}

/// Whether the identity `voter` has already cast its vote on poll `poll_id`.
pub open spec fn already_voted(voters: Seq<VoterEntry>, voter: Seq<u8>, poll_id: u64) -> bool {
    has_voter(voters, voter, poll_id) && voter_record_at(voters, voter, poll_id).voted
}

/// Sum of the vote counters of all candidates registered under `poll_id`.
pub open spec fn votes_sum(cands: Seq<CandidateEntry>, poll_id: u64) -> int
    decreases cands.len(),
{
    if cands.len() == 0 {
        0
    } else {
        votes_sum(cands.drop_last(), poll_id) + if cands.last().poll_id == poll_id {
            cands.last().candidate.candidate_votes as int
        } else {
            0
        }
    }
}

/// Number of candidate entries registered under `poll_id`.
pub open spec fn candidate_count(cands: Seq<CandidateEntry>, poll_id: u64) -> int
    decreases cands.len(),
{
    if cands.len() == 0 {
        0
    } else {
        candidate_count(cands.drop_last(), poll_id) + if cands.last().poll_id == poll_id {
            1int
        } else {
            0
        }
    }
}

/// Number of voter records marked voted for poll `poll_id` — the number of
/// distinct identities that have cast a vote on it.
pub open spec fn voted_count(voters: Seq<VoterEntry>, poll_id: u64) -> int
    decreases voters.len(),
{
    if voters.len() == 0 {
        0
    } else {
        voted_count(voters.drop_last(), poll_id) + if voters.last().poll_id == poll_id
            && voters.last().record.voted {
            1int
        } else {
            0
        }
    }
}

/// No two stored polls share an identifier.
pub open spec fn polls_unique(polls: Seq<Poll>) -> bool {
    forall|i: int, j: int|
        0 <= i < j < polls.len() ==> polls[i].poll_id != polls[j].poll_id
}

/// No two stored candidates share the key `(poll_id, candidate_name)`.
pub open spec fn candidates_unique(cands: Seq<CandidateEntry>) -> bool {
    forall|i: int, j: int|
        0 <= i < j < cands.len() ==> !(cands[i].poll_id == cands[j].poll_id
            && cands[i].candidate.candidate_name@ == cands[j].candidate.candidate_name@)
}

/// No two stored voter records share the key `(voter, poll_id)`.
pub open spec fn voters_unique(voters: Seq<VoterEntry>) -> bool {
    forall|i: int, j: int|
        0 <= i < j < voters.len() ==> !(voters[i].voter@ == voters[j].voter@
            && voters[i].poll_id == voters[j].poll_id)
}

/// Every poll's running total equals the sum of the vote counters of its
/// candidates — the ledger-wide counting invariant.
pub open spec fn totals_consistent(polls: Seq<Poll>, cands: Seq<CandidateEntry>) -> bool {
    forall|i: int|
        0 <= i < polls.len() ==> polls[i].total_votes == votes_sum(cands, #[trigger] polls[i].poll_id)
}

/// Every poll's `candidate_amount` equals the number of candidates
/// registered under it.
pub open spec fn amounts_consistent(polls: Seq<Poll>, cands: Seq<CandidateEntry>) -> bool {
    forall|i: int|
        0 <= i < polls.len() ==> polls[i].candidate_amount == candidate_count(
            cands,
            #[trigger] polls[i].poll_id,
        )
}

/// Every poll's running total equals the number of identities marked voted
/// for it: each identity contributes at most one vote to each poll.
pub open spec fn voters_counted(polls: Seq<Poll>, voters: Seq<VoterEntry>) -> bool {
    forall|i: int|
        0 <= i < polls.len() ==> polls[i].total_votes == voted_count(
            voters,
            #[trigger] polls[i].poll_id,
        )
}

impl Ledger {
    /// The ledger invariant: keys are unique, every record is well-formed
    /// and refers to an existing poll, a voted record's back-reference names
    /// its poll's address, every poll's total matches both the sum of its
    /// candidates' counters and the number of identities marked voted for
    /// it, and every poll's `candidate_amount` counts exactly its
    /// candidates.
    pub open spec fn wf(self) -> bool {
        &&& polls_unique(self.polls@)
        &&& candidates_unique(self.candidates@)
        &&& voters_unique(self.voters@)
        &&& forall|i: int| 0 <= i < self.polls@.len() ==> poll_wf(#[trigger] self.polls@[i])
        &&& forall|i: int|
            0 <= i < self.candidates@.len() ==> candidate_wf((#[trigger] self.candidates@[i]).candidate)
                && has_poll(self.polls@, self.candidates@[i].poll_id)
        &&& forall|i: int|
            0 <= i < self.voters@.len() ==> has_poll(self.polls@, (#[trigger] self.voters@[i]).poll_id)
                && (self.voters@[i].record.voted ==> self.voters@[i].record.poll == (Address::Poll {
                    poll_id: self.voters@[i].poll_id,
                }))
        &&& totals_consistent(self.polls@, self.candidates@)
        &&& amounts_consistent(self.polls@, self.candidates@)
        &&& voters_counted(self.polls@, self.voters@)
    }

    /// Creates an empty ledger holding no records at all.
    pub fn new() -> (l: Ledger)
        ensures
            l.wf(),
            l.polls@.len() == 0,
            l.candidates@.len() == 0,
            l.voters@.len() == 0,
    {
        Ledger { polls: Vec::new(), candidates: Vec::new(), voters: Vec::new() }
    }

    /// Creates the poll record for `poll_id` at its derived address.
    ///
    /// The poll window must have both endpoints inside the timestamp sanity
    /// bound and must be strictly ordered; the derived address must be free.
    /// Exactly one of the four outcomes happens, and on any failure the
    /// ledger is left untouched.
    pub fn initialize_poll(
        &mut self,
        poll_id: u64,
        description: Vec<u8>,
        poll_start: u64,
        poll_end: u64,
    ) -> (r: Result<(), VotingError>)
        requires
            old(self).wf(),
            description@.len() <= MAX_DESCRIPTION_BYTES,
        ensures
            final(self).wf(),
            r is Ok <==> (valid_unix_timestamp(poll_start) && valid_unix_timestamp(poll_end)
                && poll_start < poll_end && !has_poll(old(self).polls@, poll_id)),
            !(valid_unix_timestamp(poll_start) && valid_unix_timestamp(poll_end)) ==> r == Err::<
                (),
                VotingError,
            >(VotingError::InvalidTimestamp),
            valid_unix_timestamp(poll_start) && valid_unix_timestamp(poll_end) && poll_start
                >= poll_end ==> r == Err::<(), VotingError>(VotingError::InvalidPollDuration),
            valid_unix_timestamp(poll_start) && valid_unix_timestamp(poll_end) && poll_start
                < poll_end && has_poll(old(self).polls@, poll_id) ==> r == Err::<(), VotingError>(
                VotingError::AlreadyExists,
            ),
            r is Ok ==> final(self).polls@ == old(self).polls@.push(
                (Poll {
                    poll_id,
                    description,
                    poll_start,
                    poll_end,
                    candidate_amount: 0,
                    total_votes: 0,
                }),
            ),
            r is Ok ==> final(self).candidates@ == old(self).candidates@ && final(self).voters@
                == old(self).voters@,
            r is Err ==> *final(self) == *old(self),
    {
        if !is_valid_unix_timestamp(poll_start) || !is_valid_unix_timestamp(poll_end) {
            return Err(VotingError::InvalidTimestamp);
        }
        if poll_start >= poll_end {
            return Err(VotingError::InvalidPollDuration);
        }
        if self.find_poll_index(poll_id).is_some() {
            return Err(VotingError::AlreadyExists);
        }
        let poll = Poll {
            poll_id,
            description,
            poll_start,
            poll_end,
            candidate_amount: 0,
            total_votes: 0,
        };
        let ghost p = poll;
        let ghost prev = self.polls@;
        self.polls.push(poll);
        proof {
            let cands = self.candidates@;
            assert forall|i: int| 0 <= i < cands.len() implies (#[trigger] cands[i]).poll_id
                != poll_id by {
                assert(has_poll(prev, cands[i].poll_id));
            }
            lemma_votes_sum_absent(cands, poll_id);
            lemma_candidate_count_absent(cands, poll_id);
            assert forall|i: int| 0 <= i < self.voters@.len() implies (#[trigger] self.voters@[i]).poll_id
                != poll_id by {
                assert(has_poll(prev, self.voters@[i].poll_id));
            }
            lemma_voted_count_absent(self.voters@, poll_id);
            assert forall|i: int| 0 <= i < cands.len() implies has_poll(
                self.polls@,
                (#[trigger] cands[i]).poll_id,
            ) by {
                lemma_has_poll_push(prev, p, cands[i].poll_id);
            }
            assert forall|i: int| 0 <= i < self.voters@.len() implies has_poll(
                self.polls@,
                (#[trigger] self.voters@[i]).poll_id,
            ) by {
                lemma_has_poll_push(prev, p, self.voters@[i].poll_id);
            }
        }
        Ok(())
    }

    /// Registers the candidate `candidate_name` under the poll `poll_id`.
    ///
    /// The poll must already exist and the derived candidate address must be
    /// free; on success a fresh candidate record with a zero counter is
    /// created and the poll's `candidate_amount` rises by exactly one. On
    /// any failure the ledger is left untouched.
    pub fn initialize_candidate(&mut self, poll_id: u64, candidate_name: Vec<u8>) -> (r: Result<
        (),
        VotingError,
    >)
        requires
            old(self).wf(),
            candidate_name@.len() <= MAX_CANDIDATE_NAME_BYTES,
            has_poll(old(self).polls@, poll_id) ==> poll_at(
                old(self).polls@,
                poll_id,
            ).candidate_amount < u64::MAX,
        ensures
            final(self).wf(),
            r is Ok <==> has_poll(old(self).polls@, poll_id) && !has_candidate(
                old(self).candidates@,
                poll_id,
                candidate_name@,
            ),
            !has_poll(old(self).polls@, poll_id) ==> r == Err::<(), VotingError>(
                VotingError::NotFound,
            ),
            has_poll(old(self).polls@, poll_id) && has_candidate(
                old(self).candidates@,
                poll_id,
                candidate_name@,
            ) ==> r == Err::<(), VotingError>(VotingError::AlreadyExists),
            r is Err ==> *final(self) == *old(self),
            r is Ok ==> final(self).candidates@ == old(self).candidates@.push(
                (CandidateEntry {
                    poll_id,
                    candidate: (Candidate { candidate_name, candidate_votes: 0 }),
                }),
            ),
            r is Ok ==> final(self).polls@ == old(self).polls@.update(
                poll_index(old(self).polls@, poll_id),
                (Poll {
                    candidate_amount: (poll_at(old(self).polls@, poll_id).candidate_amount
                        + 1) as u64,
                    ..poll_at(old(self).polls@, poll_id)
                }),
            ),
            r is Ok ==> poll_at(final(self).polls@, poll_id).candidate_amount == poll_at(
                old(self).polls@,
                poll_id,
            ).candidate_amount + 1,
            r is Ok ==> final(self).voters@ == old(self).voters@,
    {
        let pi = match self.find_poll_index(poll_id) {
            None => {
                return Err(VotingError::NotFound);
            },
            Some(i) => i,
        };
        if self.find_candidate_index(poll_id, &candidate_name).is_some() {
            return Err(VotingError::AlreadyExists);
        }
        let ghost prev = *self;
        let entry = CandidateEntry {
            poll_id,
            candidate: Candidate { candidate_name, candidate_votes: 0 },
        };
        let ghost e = entry;
        self.candidates.push(entry);
        let p = &mut self.polls[pi];
        p.candidate_amount = p.candidate_amount + 1;
        proof {
            let polls1 = self.polls@;
            let cands1 = self.candidates@;
            assert(pi == poll_index(prev.polls@, poll_id));
            assert(polls1 == prev.polls@.update(pi as int, polls1[pi as int]));
            assert forall|i: int| 0 <= i < polls1.len() implies (#[trigger] polls1[i]).poll_id
                == prev.polls@[i].poll_id by {}
            assert(polls_unique(polls1));
            assert(polls1[pi as int].poll_id == poll_id);
            assert(poll_index(polls1, poll_id) == pi) by {
                let w = choose|j: int| 0 <= j < polls1.len() && polls1[j].poll_id == poll_id;
                assert(0 <= w < polls1.len() && polls1[w].poll_id == poll_id);
            }
            assert forall|i: int| 0 <= i < cands1.len() implies has_poll(
                polls1,
                (#[trigger] cands1[i]).poll_id,
            ) by {
                if i < prev.candidates@.len() {
                    lemma_has_poll_update_same_id(
                        prev.polls@,
                        pi as int,
                        polls1[pi as int],
                        cands1[i].poll_id,
                    );
                } else {
                    assert(polls1[pi as int].poll_id == poll_id);
                }
            }
            assert forall|i: int| 0 <= i < self.voters@.len() implies has_poll(
                polls1,
                (#[trigger] self.voters@[i]).poll_id,
            ) by {
                lemma_has_poll_update_same_id(
                    prev.polls@,
                    pi as int,
                    polls1[pi as int],
                    self.voters@[i].poll_id,
                );
            }
            assert forall|i: int| 0 <= i < polls1.len() implies (#[trigger] polls1[i]).total_votes
                == votes_sum(cands1, polls1[i].poll_id) by {
                lemma_votes_sum_push(prev.candidates@, e, polls1[i].poll_id);
            }
            assert forall|i: int| 0 <= i < polls1.len() implies (#[trigger] polls1[i]).candidate_amount
                == candidate_count(cands1, polls1[i].poll_id) by {
                lemma_candidate_count_push(prev.candidates@, e, polls1[i].poll_id);
            }
        }
        Ok(())
    }

    /// Casts the vote of identity `voter` for `candidate_name` on poll
    /// `poll_id`.
    ///
    /// The poll and the candidate must exist, and the identity must not have
    /// voted on this poll before. On success the voter record at the derived
    /// `(voter, poll_id)` address is created or marked `voted`, with the
    /// poll's address as back-reference, and both the candidate's counter
    /// and the poll's total rise by exactly one. On any failure the ledger
    /// is left untouched; once marked, an identity's record is never reset,
    /// so every later vote by it on this poll fails with `AlreadyVoted`.
    pub fn vote(&mut self, voter: Vec<u8>, poll_id: u64, candidate_name: Vec<u8>) -> (r: Result<
        (),
        VotingError,
    >)
        requires
            old(self).wf(),
            has_poll(old(self).polls@, poll_id) ==> poll_at(old(self).polls@, poll_id).total_votes
                < u64::MAX,
        ensures
            final(self).wf(),
            r is Ok <==> has_poll(old(self).polls@, poll_id) && has_candidate(
                old(self).candidates@,
                poll_id,
                candidate_name@,
            ) && !already_voted(old(self).voters@, voter@, poll_id),
            !has_poll(old(self).polls@, poll_id) ==> r == Err::<(), VotingError>(
                VotingError::NotFound,
            ),
            has_poll(old(self).polls@, poll_id) && !has_candidate(
                old(self).candidates@,
                poll_id,
                candidate_name@,
            ) ==> r == Err::<(), VotingError>(VotingError::NotFound),
            has_poll(old(self).polls@, poll_id) && has_candidate(
                old(self).candidates@,
                poll_id,
                candidate_name@,
            ) && already_voted(old(self).voters@, voter@, poll_id) ==> r == Err::<(), VotingError>(
                VotingError::AlreadyVoted,
            ),
            r is Err ==> *final(self) == *old(self),
            r is Ok ==> final(self).polls@ == old(self).polls@.update(
                poll_index(old(self).polls@, poll_id),
                (Poll {
                    total_votes: (poll_at(old(self).polls@, poll_id).total_votes + 1) as u64,
                    ..poll_at(old(self).polls@, poll_id)
                }),
            ),
            r is Ok ==> final(self).candidates@ == old(self).candidates@.update(
                candidate_index(old(self).candidates@, poll_id, candidate_name@),
                (CandidateEntry {
                    poll_id,
                    candidate: (Candidate {
                        candidate_votes: (candidate_at(
                            old(self).candidates@,
                            poll_id,
                            candidate_name@,
                        ).candidate_votes + 1) as u64,
                        ..candidate_at(old(self).candidates@, poll_id, candidate_name@)
                    }),
                }),
            ),
            r is Ok ==> final(self).voters@ == (if has_voter(old(self).voters@, voter@, poll_id) {
                old(self).voters@.update(
                    voter_index(old(self).voters@, voter@, poll_id),
                    (VoterEntry {
                        record: (VoterRecord { voted: true, poll: (Address::Poll { poll_id }) }),
                        ..old(self).voters@[voter_index(old(self).voters@, voter@, poll_id)]
                    }),
                )
            } else {
                old(self).voters@.push(
                    (VoterEntry {
                        voter,
                        poll_id,
                        record: (VoterRecord { voted: true, poll: (Address::Poll { poll_id }) }),
                    }),
                )
            }),
            r is Ok ==> already_voted(final(self).voters@, voter@, poll_id),
            r is Ok ==> poll_at(final(self).polls@, poll_id).total_votes == poll_at(
                old(self).polls@,
                poll_id,
            ).total_votes + 1,
            r is Ok ==> candidate_at(
                final(self).candidates@,
                poll_id,
                candidate_name@,
            ).candidate_votes == candidate_at(
                old(self).candidates@,
                poll_id,
                candidate_name@,
            ).candidate_votes + 1,
    {
        let pi = match self.find_poll_index(poll_id) {
            None => {
                return Err(VotingError::NotFound);
            },
            Some(i) => i,
        };
        let ci = match self.find_candidate_index(poll_id, &candidate_name) {
            None => {
                return Err(VotingError::NotFound);
            },
            Some(i) => i,
        };
        let vi_opt = self.find_voter_index(&voter, poll_id);
        if let Some(vi) = vi_opt {
            if self.voters[vi].record.voted {
                return Err(VotingError::AlreadyVoted);
            }
        }
        let ghost prev = *self;
        // Get-or-create the voter record and mark it voted, with the poll's
        // derived address as back-reference.
        match vi_opt {
            Some(vi) => {
                let v = &mut self.voters[vi];
                v.record.voted = true;
                v.record.poll = derive_poll_address(poll_id);
            },
            None => {
                self.voters.push(
                    VoterEntry {
                        voter,
                        poll_id,
                        record: VoterRecord { voted: true, poll: derive_poll_address(poll_id) },
                    },
                );
            },
        }
        proof {
            assert(pi == poll_index(prev.polls@, poll_id));
            assert(ci == candidate_index(prev.candidates@, poll_id, candidate_name@));
            assert(prev.polls@[pi as int].total_votes == votes_sum(prev.candidates@, poll_id));
            lemma_candidate_votes_le_sum(prev.candidates@, ci as int, poll_id);
        }
        let c = &mut self.candidates[ci];
        c.candidate.candidate_votes = c.candidate.candidate_votes + 1;
        let p = &mut self.polls[pi];
        p.total_votes = p.total_votes + 1;
        proof {
            let polls1 = self.polls@;
            let cands1 = self.candidates@;
            let voters1 = self.voters@;
            assert forall|i: int| 0 <= i < polls1.len() implies (#[trigger] polls1[i]).poll_id
                == prev.polls@[i].poll_id by {}
            assert(polls_unique(polls1));
            assert(poll_index(polls1, poll_id) == pi) by {
                let w = choose|j: int| 0 <= j < polls1.len() && polls1[j].poll_id == poll_id;
                assert(0 <= w < polls1.len() && polls1[w].poll_id == poll_id);
            }
            assert(candidates_unique(cands1));
            assert(candidate_index(cands1, poll_id, candidate_name@) == ci) by {
                let w = choose|j: int|
                    0 <= j < cands1.len() && cands1[j].poll_id == poll_id
                        && cands1[j].candidate.candidate_name@ == candidate_name@;
                assert(0 <= w < cands1.len() && cands1[w].poll_id == poll_id
                    && cands1[w].candidate.candidate_name@ == candidate_name@);
            }
            if has_voter(prev.voters@, voter@, poll_id) {
                let vi = voter_index(prev.voters@, voter@, poll_id);
                assert(voters1 == prev.voters@.update(vi, voters1[vi]));
                assert(voters_unique(voters1));
                assert(voter_index(voters1, voter@, poll_id) == vi) by {
                    let w = choose|j: int|
                        0 <= j < voters1.len() && voters1[j].voter@ == voter@ && voters1[j].poll_id
                            == poll_id;
                    assert(0 <= w < voters1.len() && voters1[w].voter@ == voter@
                        && voters1[w].poll_id == poll_id);
                }
            } else {
                let n = prev.voters@.len() as int;
                assert(voters1[n].voter@ == voter@ && voters1[n].poll_id == poll_id);
                assert(voters_unique(voters1));
                assert(voter_index(voters1, voter@, poll_id) == n) by {
                    assert(voters1[n].voter@ == voter@ && voters1[n].poll_id == poll_id);
                    let w = choose|j: int|
                        0 <= j < voters1.len() && voters1[j].voter@ == voter@ && voters1[j].poll_id
                            == poll_id;
                    assert(0 <= w < voters1.len() && voters1[w].voter@ == voter@
                        && voters1[w].poll_id == poll_id);
                }
            }
            assert forall|i: int| 0 <= i < cands1.len() implies has_poll(
                polls1,
                (#[trigger] cands1[i]).poll_id,
            ) by {
                lemma_has_poll_update_same_id(
                    prev.polls@,
                    pi as int,
                    polls1[pi as int],
                    cands1[i].poll_id,
                );
            }
            assert forall|i: int| 0 <= i < voters1.len() implies has_poll(
                polls1,
                (#[trigger] voters1[i]).poll_id,
            ) by {
                lemma_has_poll_update_same_id(
                    prev.polls@,
                    pi as int,
                    polls1[pi as int],
                    voters1[i].poll_id,
                );
            }
            assert forall|i: int| 0 <= i < polls1.len() implies (#[trigger] polls1[i]).total_votes
                == votes_sum(cands1, polls1[i].poll_id) by {
                lemma_votes_sum_update(
                    prev.candidates@,
                    ci as int,
                    cands1[ci as int],
                    polls1[i].poll_id,
                );
            }
            assert forall|i: int| 0 <= i < polls1.len() implies (#[trigger] polls1[i]).candidate_amount
                == candidate_count(cands1, polls1[i].poll_id) by {
                lemma_candidate_count_update(
                    prev.candidates@,
                    ci as int,
                    cands1[ci as int],
                    polls1[i].poll_id,
                );
            }
            assert forall|i: int| 0 <= i < polls1.len() implies (#[trigger] polls1[i]).total_votes
                == voted_count(voters1, polls1[i].poll_id) by {
                if has_voter(prev.voters@, voter@, poll_id) {
                    let vi = voter_index(prev.voters@, voter@, poll_id);
                    lemma_voted_count_update(prev.voters@, vi, voters1[vi], polls1[i].poll_id);
                } else {
                    let n = prev.voters@.len() as int;
                    lemma_voted_count_push(prev.voters@, voters1[n], polls1[i].poll_id);
                }
            }
        }
        Ok(())
    }

    /// Looks the poll `poll_id` up at its derived address.
    pub fn get_poll(&self, poll_id: u64) -> (r: Option<&Poll>)
        requires
            self.wf(),
        ensures
            r is Some <==> has_poll(self.polls@, poll_id),
            r matches Some(p) ==> *p == poll_at(self.polls@, poll_id),
    {
        match self.find_poll_index(poll_id) {
            Some(i) => Some(&self.polls[i]),
            None => None,
        }
    }

    /// Looks the candidate keyed `(poll_id, candidate_name)` up at its
    /// derived address.
    pub fn get_candidate(&self, poll_id: u64, candidate_name: &Vec<u8>) -> (r: Option<&Candidate>)
        requires
            self.wf(),
        ensures
            r is Some <==> has_candidate(self.candidates@, poll_id, candidate_name@),
            r matches Some(c) ==> *c == candidate_at(self.candidates@, poll_id, candidate_name@),
    {
        match self.find_candidate_index(poll_id, candidate_name) {
            Some(i) => Some(&self.candidates[i].candidate),
            None => None,
        }
    }

    /// Looks the voter record keyed `(voter, poll_id)` up at its derived
    /// address.
    pub fn get_voter_record(&self, voter: &Vec<u8>, poll_id: u64) -> (r: Option<&VoterRecord>)
        requires
            self.wf(),
        ensures
            r is Some <==> has_voter(self.voters@, voter@, poll_id),
            r matches Some(v) ==> *v == voter_record_at(self.voters@, voter@, poll_id),
    {
        match self.find_voter_index(voter, poll_id) {
            Some(i) => Some(&self.voters[i].record),
            None => None,
        }
    }

    /// Whether the identity `voter` has already cast its vote on `poll_id`.
    pub fn has_voted(&self, voter: &Vec<u8>, poll_id: u64) -> (r: bool)
        requires
            self.wf(),
        ensures
            r == already_voted(self.voters@, voter@, poll_id),
    {
        match self.find_voter_index(voter, poll_id) {
            Some(i) => self.voters[i].record.voted,
            None => false,
        }
    }

    /// Position of the poll `poll_id` in the poll collection, if present.
    fn find_poll_index(&self, poll_id: u64) -> (r: Option<usize>)
        ensures
            r is Some <==> has_poll(self.polls@, poll_id),
            r matches Some(i) ==> i < self.polls@.len() && self.polls@[i as int].poll_id == poll_id,
            polls_unique(self.polls@) ==> (r matches Some(i) ==> i == poll_index(
                self.polls@,
                poll_id,
            )),
    {
        let n = self.polls.len();
        let mut idx: usize = 0;
        while idx < n
            invariant
                n == self.polls@.len(),
                idx <= n,
                forall|j: int| 0 <= j < idx ==> self.polls@[j].poll_id != poll_id,
            decreases n - idx,
        {
            if self.polls[idx].poll_id == poll_id {
                proof {
                    if polls_unique(self.polls@) {
                        let w = poll_index(self.polls@, poll_id);
                        assert(0 <= w < self.polls@.len() && self.polls@[w].poll_id == poll_id);
                    }
                }
                return Some(idx);
            }
            idx = idx + 1;
        }
        None
    }

    /// Position of the candidate keyed `(poll_id, name)`, if present.
    fn find_candidate_index(&self, poll_id: u64, name: &Vec<u8>) -> (r: Option<usize>)
        ensures
            r is Some <==> has_candidate(self.candidates@, poll_id, name@),
            r matches Some(i) ==> i < self.candidates@.len()
                && self.candidates@[i as int].poll_id == poll_id
                && self.candidates@[i as int].candidate.candidate_name@ == name@,
            candidates_unique(self.candidates@) ==> (r matches Some(i) ==> i == candidate_index(
                self.candidates@,
                poll_id,
                name@,
            )),
    {
        let n = self.candidates.len();
        let mut idx: usize = 0;
        while idx < n
            invariant
                n == self.candidates@.len(),
                idx <= n,
                forall|j: int|
                    0 <= j < idx ==> !(self.candidates@[j].poll_id == poll_id
                        && self.candidates@[j].candidate.candidate_name@ == name@),
            decreases n - idx,
        {
            let entry = &self.candidates[idx];
            if entry.poll_id == poll_id && bytes_eq(&entry.candidate.candidate_name, name) {
                proof {
                    if candidates_unique(self.candidates@) {
                        let w = candidate_index(self.candidates@, poll_id, name@);
                        assert(0 <= w < self.candidates@.len()
                            && self.candidates@[w].poll_id == poll_id
                            && self.candidates@[w].candidate.candidate_name@ == name@);
                    }
                }
                return Some(idx);
            }
            idx = idx + 1;
        }
        None
    }

    /// Position of the voter record keyed `(voter, poll_id)`, if present.
    fn find_voter_index(&self, voter: &Vec<u8>, poll_id: u64) -> (r: Option<usize>)
        ensures
            r is Some <==> has_voter(self.voters@, voter@, poll_id),
            r matches Some(i) ==> i < self.voters@.len()
                && self.voters@[i as int].voter@ == voter@
                && self.voters@[i as int].poll_id == poll_id,
            voters_unique(self.voters@) ==> (r matches Some(i) ==> i == voter_index(
                self.voters@,
                voter@,
                poll_id,
            )),
    {
        let n = self.voters.len();
        let mut idx: usize = 0;
        while idx < n
            invariant
                n == self.voters@.len(),
                idx <= n,
                forall|j: int|
                    0 <= j < idx ==> !(self.voters@[j].voter@ == voter@
                        && self.voters@[j].poll_id == poll_id),
            decreases n - idx,
        {
            let entry = &self.voters[idx];
            if entry.poll_id == poll_id && bytes_eq(&entry.voter, voter) {
                proof {
                    if voters_unique(self.voters@) {
                        let w = voter_index(self.voters@, voter@, poll_id);
                        assert(0 <= w < self.voters@.len() && self.voters@[w].voter@ == voter@
                            && self.voters@[w].poll_id == poll_id);
                    }
                }
                return Some(idx);
            }
            idx = idx + 1;
        }
        None
    }
}

/// What one candidate entry contributes to the vote total of poll `poll_id`.
spec fn vote_contribution(e: CandidateEntry, poll_id: u64) -> int {
    if e.poll_id == poll_id {
        e.candidate.candidate_votes as int
    } else {
        0
    }
}

/// Appending a candidate entry raises a poll's candidate-vote sum by exactly
/// that entry's contribution.
proof fn lemma_votes_sum_push(cands: Seq<CandidateEntry>, e: CandidateEntry, poll_id: u64)
    ensures
        votes_sum(cands.push(e), poll_id) == votes_sum(cands, poll_id) + vote_contribution(
            e,
            poll_id,
        ),
{
    assert(cands.push(e).drop_last() =~= cands);
}

/// A poll no candidate entry belongs to has a candidate-vote sum of zero.
proof fn lemma_votes_sum_absent(cands: Seq<CandidateEntry>, poll_id: u64)
    requires
        forall|i: int| 0 <= i < cands.len() ==> (#[trigger] cands[i]).poll_id != poll_id,
    ensures
        votes_sum(cands, poll_id) == 0,
    decreases cands.len(),
{
    if cands.len() > 0 {
        lemma_votes_sum_absent(cands.drop_last(), poll_id);
    }
}

/// Replacing one candidate entry shifts a poll's candidate-vote sum by the
/// difference of the two entries' contributions.
proof fn lemma_votes_sum_update(cands: Seq<CandidateEntry>, i: int, e: CandidateEntry, poll_id: u64)
    requires
        0 <= i < cands.len(),
    ensures
        votes_sum(cands.update(i, e), poll_id) == votes_sum(cands, poll_id) - vote_contribution(
            cands[i],
            poll_id,
        ) + vote_contribution(e, poll_id),
    decreases cands.len(),
{
    if i == cands.len() - 1 {
        assert(cands.update(i, e).drop_last() =~= cands.drop_last());
    } else {
        assert(cands.update(i, e).drop_last() =~= cands.drop_last().update(i, e));
        lemma_votes_sum_update(cands.drop_last(), i, e, poll_id);
    }
}

/// Candidate-vote sums are never negative.
proof fn lemma_votes_sum_nonneg(cands: Seq<CandidateEntry>, poll_id: u64)
    ensures
        votes_sum(cands, poll_id) >= 0,
    decreases cands.len(),
{
    if cands.len() > 0 {
        lemma_votes_sum_nonneg(cands.drop_last(), poll_id);
    }
}

/// Each candidate's own counter is bounded by its poll's candidate-vote sum.
proof fn lemma_candidate_votes_le_sum(cands: Seq<CandidateEntry>, i: int, poll_id: u64)
    requires
        0 <= i < cands.len(),
        cands[i].poll_id == poll_id,
    ensures
        cands[i].candidate.candidate_votes as int <= votes_sum(cands, poll_id),
    decreases cands.len(),
{
    if i == cands.len() - 1 {
        lemma_votes_sum_nonneg(cands.drop_last(), poll_id);
    } else {
        lemma_candidate_votes_le_sum(cands.drop_last(), i, poll_id);
    }
}

/// Appending a candidate entry raises a poll's candidate count by one
/// exactly when the entry is registered under that poll.
proof fn lemma_candidate_count_push(cands: Seq<CandidateEntry>, e: CandidateEntry, poll_id: u64)
    ensures
        candidate_count(cands.push(e), poll_id) == candidate_count(cands, poll_id) + if e.poll_id
            == poll_id {
            1int
        } else {
            0
        },
{
    assert(cands.push(e).drop_last() =~= cands);
}

/// A poll no candidate entry belongs to has a candidate count of zero.
proof fn lemma_candidate_count_absent(cands: Seq<CandidateEntry>, poll_id: u64)
    requires
        forall|i: int| 0 <= i < cands.len() ==> (#[trigger] cands[i]).poll_id != poll_id,
    ensures
        candidate_count(cands, poll_id) == 0,
    decreases cands.len(),
{
    if cands.len() > 0 {
        lemma_candidate_count_absent(cands.drop_last(), poll_id);
    }
}

/// Replacing one candidate entry by another registered under the same poll
/// leaves every poll's candidate count unchanged.
proof fn lemma_candidate_count_update(
    cands: Seq<CandidateEntry>,
    i: int,
    e: CandidateEntry,
    poll_id: u64,
)
    requires
        0 <= i < cands.len(),
        e.poll_id == cands[i].poll_id,
    ensures
        candidate_count(cands.update(i, e), poll_id) == candidate_count(cands, poll_id),
    decreases cands.len(),
{
    if i == cands.len() - 1 {
        assert(cands.update(i, e).drop_last() =~= cands.drop_last());
    } else {
        assert(cands.update(i, e).drop_last() =~= cands.drop_last().update(i, e));
        lemma_candidate_count_update(cands.drop_last(), i, e, poll_id);
    }
}

/// What one voter entry contributes to the voted count of poll `poll_id`.
spec fn voted_contribution(e: VoterEntry, poll_id: u64) -> int {
    if e.poll_id == poll_id && e.record.voted {
        1int
    } else {
        0
    }
}

/// Appending a voter entry raises a poll's voted count by exactly that
/// entry's contribution.
proof fn lemma_voted_count_push(voters: Seq<VoterEntry>, e: VoterEntry, poll_id: u64)
    ensures
        voted_count(voters.push(e), poll_id) == voted_count(voters, poll_id) + voted_contribution(
            e,
            poll_id,
        ),
{
    assert(voters.push(e).drop_last() =~= voters);
}

/// A poll no voter entry belongs to has a voted count of zero.
proof fn lemma_voted_count_absent(voters: Seq<VoterEntry>, poll_id: u64)
    requires
        forall|i: int| 0 <= i < voters.len() ==> (#[trigger] voters[i]).poll_id != poll_id,
    ensures
        voted_count(voters, poll_id) == 0,
    decreases voters.len(),
{
    if voters.len() > 0 {
        lemma_voted_count_absent(voters.drop_last(), poll_id);
    }
}

/// Replacing one voter entry shifts a poll's voted count by the difference
/// of the two entries' contributions.
proof fn lemma_voted_count_update(voters: Seq<VoterEntry>, i: int, e: VoterEntry, poll_id: u64)
    requires
        0 <= i < voters.len(),
    ensures
        voted_count(voters.update(i, e), poll_id) == voted_count(voters, poll_id)
            - voted_contribution(voters[i], poll_id) + voted_contribution(e, poll_id),
    decreases voters.len(),
{
    if i == voters.len() - 1 {
        assert(voters.update(i, e).drop_last() =~= voters.drop_last());
    } else {
        assert(voters.update(i, e).drop_last() =~= voters.drop_last().update(i, e));
        lemma_voted_count_update(voters.drop_last(), i, e, poll_id);
    }
}

/// A stored poll stays stored when one poll record is replaced by another
/// with the same identifier.
proof fn lemma_has_poll_update_same_id(polls: Seq<Poll>, i: int, p: Poll, poll_id: u64)
    requires
        0 <= i < polls.len(),
        p.poll_id == polls[i].poll_id,
        has_poll(polls, poll_id),
    ensures
        has_poll(polls.update(i, p), poll_id),
{
    let w = choose|j: int| 0 <= j < polls.len() && polls[j].poll_id == poll_id;
    if w == i {
        assert(polls.update(i, p)[i].poll_id == poll_id);
    } else {
        assert(polls.update(i, p)[w].poll_id == poll_id);
    }
}

/// A stored poll stays stored when another poll record is appended.
proof fn lemma_has_poll_push(polls: Seq<Poll>, p: Poll, poll_id: u64)
    requires
        has_poll(polls, poll_id),
    ensures
        has_poll(polls.push(p), poll_id),
{
    let w = choose|i: int| 0 <= i < polls.len() && polls[i].poll_id == poll_id;
    assert(polls.push(p)[w].poll_id == poll_id);
}

/// Byte-wise equality of two byte strings.
fn bytes_eq(a: &Vec<u8>, b: &Vec<u8>) -> (r: bool)
    ensures
        r == (a@ == b@),
{
    if a.len() != b.len() {
        return false;
    }
    let n = a.len();
    let mut idx: usize = 0;
    while idx < n
        invariant
            n == a@.len(),
            n == b@.len(),
            idx <= n,
            forall|j: int| 0 <= j < idx ==> a@[j] == b@[j],
        decreases n - idx,
    {
        if a[idx] != b[idx] {
            return false;
        }
        idx = idx + 1;
    }
    proof {
        assert(a@ =~= b@);
    }
    true
}

} // verus!
