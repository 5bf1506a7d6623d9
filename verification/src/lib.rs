//! A minimal decentralized poll/vote ledger.
//!
//! Callers create a poll, register candidates under it, and cast one vote per
//! identity per poll. Records live in a transactional keyed store modeled by
//! [`ledger::Ledger`]; each record is located by a deterministic, collision-free
//! address derived from its logical key (see [`address`]). The three
//! state-changing operations validate their inputs, mutate the referenced
//! records, and either apply completely or leave the store untouched.

pub mod address;
pub mod error;
pub mod laws;
pub mod ledger;
pub mod records;
pub mod validate;

pub use address::Address;
pub use error::VotingError;
pub use ledger::Ledger;
pub use records::Candidate;
pub use records::Poll;
pub use records::VoterRecord;
