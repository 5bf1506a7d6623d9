//! Deterministic derivation of storage addresses from logical record keys.
//!
//! Every persisted record is located by an [`Address`] derived from a
//! namespace and the record's seed tuple. Derivation is a pure function, so
//! the same seeds always resolve to the same address, and distinct seed
//! tuples never share one: this is the mechanism that makes duplicate poll or
//! candidate creation, and a second vote by the same identity, land on an
//! occupied address.

use vstd::prelude::*;

verus! {

/// A storage address: one namespace per record kind, keyed by that kind's
/// seed tuple.
#[derive(PartialEq, Eq, Debug)]
pub enum Address {
    /// Address of the poll record with the given identifier.
    Poll { poll_id: u64 },
    /// Address of the candidate record registered under a poll.
    Candidate { poll_id: u64, candidate_name: Vec<u8> },
    /// Address of the voter record of one identity for one poll.
    Voter { voter: Vec<u8>, poll_id: u64 },
}

/// Derives the address of the poll record for `poll_id`.
pub fn derive_poll_address(poll_id: u64) -> (a: Address)
    ensures
        a == (Address::Poll { poll_id }),
{
    Address::Poll { poll_id }
}

/// Derives the address of the candidate record for `(poll_id, candidate_name)`.
pub fn derive_candidate_address(poll_id: u64, candidate_name: Vec<u8>) -> (a: Address)
    ensures
        a == (Address::Candidate { poll_id, candidate_name }),
{
    Address::Candidate { poll_id, candidate_name }
}

/// Derives the address of the voter record for `(voter, poll_id)`.
pub fn derive_voter_address(voter: Vec<u8>, poll_id: u64) -> (a: Address)
    ensures
        a == (Address::Voter { voter, poll_id }),
{
    Address::Voter { voter, poll_id }
}

/// Address derivation is collision-free: two equal addresses always carry the
/// same namespace and the same seed tuple, so records with distinct logical
/// keys can never occupy one storage location. Determinism needs no separate
/// statement: derivation is a pure function of the seeds.
pub proof fn lemma_address_collision_free(a: Address, b: Address)
    requires
        a == b,
    ensures
        a matches Address::Poll { poll_id: p1 } ==> (b matches Address::Poll {
            poll_id: p2,
        } && p1 == p2),
        a matches Address::Candidate { poll_id: p1, candidate_name: n1 } ==> (b matches
            Address::Candidate { poll_id: p2, candidate_name: n2 } && p1 == p2 && n1@ == n2@),
        a matches Address::Voter { voter: v1, poll_id: p1 } ==> (b matches Address::Voter {
            voter: v2,
            poll_id: p2,
        } && v1@ == v2@ && p1 == p2),
{
}

} // verus!
