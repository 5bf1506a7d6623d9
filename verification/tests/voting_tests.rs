use voting::address::derive_candidate_address;
use voting::address::derive_poll_address;
use voting::address::derive_voter_address;
use voting::Address;
use voting::Ledger;
use voting::VotingError;

fn b(s: &str) -> Vec<u8> {
    s.as_bytes().to_vec()
}

#[test]
fn create_poll_succeeds_once_then_already_exists() {
    let mut l = Ledger::new();
    assert_eq!(l.initialize_poll(7, b("colors"), 100, 200), Ok(()));
    let p = l.get_poll(7).unwrap();
    assert_eq!(p.poll_id, 7);
    assert_eq!(p.description, b("colors"));
    assert_eq!(p.poll_start, 100);
    assert_eq!(p.poll_end, 200);
    assert_eq!(p.candidate_amount, 0);
    assert_eq!(p.total_votes, 0);
    assert_eq!(
        l.initialize_poll(7, b("colors again"), 300, 400),
        Err(VotingError::AlreadyExists)
    );
    assert_eq!(l.get_poll(7).unwrap().poll_start, 100);
}

#[test]
fn create_poll_rejects_zero_timestamp() {
    let mut l = Ledger::new();
    assert_eq!(
        l.initialize_poll(1, b("p"), 0, 200),
        Err(VotingError::InvalidTimestamp)
    );
    assert!(l.get_poll(1).is_none());
}

#[test]
fn create_poll_rejects_timestamp_at_sanity_bound() {
    let mut l = Ledger::new();
    assert_eq!(
        l.initialize_poll(1, b("p"), 100, 1_893_456_000),
        Err(VotingError::InvalidTimestamp)
    );
    assert_eq!(l.initialize_poll(1, b("p"), 100, 1_893_455_999), Ok(()));
}

#[test]
fn create_poll_rejects_misordered_window() {
    let mut l = Ledger::new();
    assert_eq!(
        l.initialize_poll(1, b("p"), 200, 100),
        Err(VotingError::InvalidPollDuration)
    );
    assert_eq!(
        l.initialize_poll(1, b("p"), 100, 100),
        Err(VotingError::InvalidPollDuration)
    );
    // The duration check does not depend on whether the poll exists.
    assert_eq!(l.initialize_poll(1, b("p"), 100, 200), Ok(()));
    assert_eq!(
        l.initialize_poll(1, b("p"), 200, 100),
        Err(VotingError::InvalidPollDuration)
    );
}

#[test]
fn create_poll_accepts_largest_description() {
    let mut l = Ledger::new();
    let desc = vec![b'x'; 200];
    assert_eq!(l.initialize_poll(1, desc.clone(), 100, 200), Ok(()));
    assert_eq!(l.get_poll(1).unwrap().description, desc);
}

#[test]
fn add_candidate_increments_amount_per_successful_call() {
    let mut l = Ledger::new();
    assert_eq!(l.initialize_poll(1, b("fruit"), 100, 200), Ok(()));
    assert_eq!(l.initialize_candidate(1, b("Apple")), Ok(()));
    assert_eq!(l.get_poll(1).unwrap().candidate_amount, 1);
    assert_eq!(l.initialize_candidate(1, b("Banana")), Ok(()));
    assert_eq!(l.get_poll(1).unwrap().candidate_amount, 2);
    let c = l.get_candidate(1, &b("Apple")).unwrap();
    assert_eq!(c.candidate_name, b("Apple"));
    assert_eq!(c.candidate_votes, 0);
}

#[test]
fn add_candidate_rejects_duplicate_pair() {
    let mut l = Ledger::new();
    assert_eq!(l.initialize_poll(1, b("fruit"), 100, 200), Ok(()));
    assert_eq!(l.initialize_candidate(1, b("Apple")), Ok(()));
    assert_eq!(
        l.initialize_candidate(1, b("Apple")),
        Err(VotingError::AlreadyExists)
    );
    assert_eq!(l.get_poll(1).unwrap().candidate_amount, 1);
}

#[test]
fn add_candidate_same_name_under_other_poll_is_distinct() {
    let mut l = Ledger::new();
    assert_eq!(l.initialize_poll(1, b("a"), 100, 200), Ok(()));
    assert_eq!(l.initialize_poll(2, b("b"), 100, 200), Ok(()));
    assert_eq!(l.initialize_candidate(1, b("Apple")), Ok(()));
    assert_eq!(l.initialize_candidate(2, b("Apple")), Ok(()));
    assert_eq!(l.get_poll(1).unwrap().candidate_amount, 1);
    assert_eq!(l.get_poll(2).unwrap().candidate_amount, 1);
}

#[test]
fn add_candidate_to_missing_poll_fails_not_found() {
    let mut l = Ledger::new();
    assert_eq!(
        l.initialize_candidate(9, b("Apple")),
        Err(VotingError::NotFound)
    );
    assert!(l.get_candidate(9, &b("Apple")).is_none());
}

#[test]
fn add_candidate_accepts_largest_name() {
    let mut l = Ledger::new();
    assert_eq!(l.initialize_poll(1, b("p"), 100, 200), Ok(()));
    let name = vec![b'n'; 32];
    assert_eq!(l.initialize_candidate(1, name.clone()), Ok(()));
    assert_eq!(
        l.get_candidate(1, &name).unwrap().candidate_name,
        name
    );
}

#[test]
fn first_vote_succeeds_and_marks_voter() {
    let mut l = Ledger::new();
    assert_eq!(l.initialize_poll(1, b("fruit"), 100, 200), Ok(()));
    assert_eq!(l.initialize_candidate(1, b("Apple")), Ok(()));
    assert!(!l.has_voted(&b("alice"), 1));
    assert_eq!(l.vote(b("alice"), 1, b("Apple")), Ok(()));
    assert!(l.has_voted(&b("alice"), 1));
    let rec = l.get_voter_record(&b("alice"), 1).unwrap();
    assert!(rec.voted);
    assert_eq!(rec.poll, derive_poll_address(1));
    assert_eq!(l.get_candidate(1, &b("Apple")).unwrap().candidate_votes, 1);
    assert_eq!(l.get_poll(1).unwrap().total_votes, 1);
}

#[test]
fn second_vote_fails_already_voted_and_changes_nothing() {
    let mut l = Ledger::new();
    assert_eq!(l.initialize_poll(1, b("fruit"), 100, 200), Ok(()));
    assert_eq!(l.initialize_candidate(1, b("Apple")), Ok(()));
    assert_eq!(l.initialize_candidate(1, b("Banana")), Ok(()));
    assert_eq!(l.vote(b("alice"), 1, b("Apple")), Ok(()));
    // A repeat vote fails even for a different candidate of the same poll.
    assert_eq!(
        l.vote(b("alice"), 1, b("Apple")),
        Err(VotingError::AlreadyVoted)
    );
    assert_eq!(
        l.vote(b("alice"), 1, b("Banana")),
        Err(VotingError::AlreadyVoted)
    );
    assert_eq!(l.get_candidate(1, &b("Apple")).unwrap().candidate_votes, 1);
    assert_eq!(l.get_candidate(1, &b("Banana")).unwrap().candidate_votes, 0);
    assert_eq!(l.get_poll(1).unwrap().total_votes, 1);
}

#[test]
fn same_voter_may_vote_on_another_poll() {
    let mut l = Ledger::new();
    assert_eq!(l.initialize_poll(1, b("a"), 100, 200), Ok(()));
    assert_eq!(l.initialize_poll(2, b("b"), 100, 200), Ok(()));
    assert_eq!(l.initialize_candidate(1, b("X")), Ok(()));
    assert_eq!(l.initialize_candidate(2, b("X")), Ok(()));
    assert_eq!(l.vote(b("alice"), 1, b("X")), Ok(()));
    assert_eq!(l.vote(b("alice"), 2, b("X")), Ok(()));
    assert_eq!(l.get_poll(1).unwrap().total_votes, 1);
    assert_eq!(l.get_poll(2).unwrap().total_votes, 1);
}

#[test]
fn vote_on_missing_poll_or_candidate_fails_not_found() {
    let mut l = Ledger::new();
    assert_eq!(l.vote(b("alice"), 1, b("Apple")), Err(VotingError::NotFound));
    assert_eq!(l.initialize_poll(1, b("fruit"), 100, 200), Ok(()));
    assert_eq!(l.vote(b("alice"), 1, b("Apple")), Err(VotingError::NotFound));
    assert!(!l.has_voted(&b("alice"), 1));
    assert_eq!(l.get_poll(1).unwrap().total_votes, 0);
}

#[test]
fn totals_match_candidate_sums_at_every_step() {
    let mut l = Ledger::new();
    assert_eq!(l.initialize_poll(1, b("fruit"), 100, 200), Ok(()));
    assert_eq!(l.initialize_poll(2, b("pets"), 100, 200), Ok(()));
    assert_eq!(l.initialize_candidate(1, b("Apple")), Ok(()));
    assert_eq!(l.initialize_candidate(1, b("Banana")), Ok(()));
    assert_eq!(l.initialize_candidate(2, b("Cat")), Ok(()));
    let check = |l: &Ledger| {
        let sum1 = l.get_candidate(1, &b("Apple")).unwrap().candidate_votes
            + l.get_candidate(1, &b("Banana")).unwrap().candidate_votes;
        assert_eq!(l.get_poll(1).unwrap().total_votes, sum1);
        let sum2 = l.get_candidate(2, &b("Cat")).unwrap().candidate_votes;
        assert_eq!(l.get_poll(2).unwrap().total_votes, sum2);
    };
    check(&l);
    assert_eq!(l.vote(b("alice"), 1, b("Apple")), Ok(()));
    check(&l);
    assert_eq!(l.vote(b("bob"), 1, b("Banana")), Ok(()));
    check(&l);
    assert_eq!(l.vote(b("alice"), 2, b("Cat")), Ok(()));
    check(&l);
    let _ = l.vote(b("alice"), 1, b("Banana"));
    check(&l);
}

#[test]
fn end_to_end_best_fruit_scenario() {
    let mut l = Ledger::new();
    assert_eq!(l.initialize_poll(1, b("Best fruit"), 1000, 2000), Ok(()));
    assert_eq!(l.initialize_candidate(1, b("Apple")), Ok(()));
    assert_eq!(l.get_poll(1).unwrap().candidate_amount, 1);
    assert_eq!(l.initialize_candidate(1, b("Banana")), Ok(()));
    assert_eq!(l.get_poll(1).unwrap().candidate_amount, 2);
    assert_eq!(l.vote(b("Alice"), 1, b("Apple")), Ok(()));
    assert_eq!(l.get_candidate(1, &b("Apple")).unwrap().candidate_votes, 1);
    assert_eq!(l.get_poll(1).unwrap().total_votes, 1);
    assert_eq!(
        l.vote(b("Alice"), 1, b("Apple")),
        Err(VotingError::AlreadyVoted)
    );
    assert_eq!(l.get_candidate(1, &b("Apple")).unwrap().candidate_votes, 1);
    assert_eq!(l.vote(b("Bob"), 1, b("Banana")), Ok(()));
    assert_eq!(l.get_candidate(1, &b("Banana")).unwrap().candidate_votes, 1);
    assert_eq!(l.get_poll(1).unwrap().total_votes, 2);
}

#[test]
fn address_derivation_is_deterministic_and_collision_free() {
    assert_eq!(derive_poll_address(1), derive_poll_address(1));
    assert_ne!(derive_poll_address(1), derive_poll_address(2));
    assert_eq!(
        derive_candidate_address(1, b("Apple")),
        derive_candidate_address(1, b("Apple"))
    );
    assert_ne!(
        derive_candidate_address(1, b("Apple")),
        derive_candidate_address(1, b("Banana"))
    );
    assert_ne!(
        derive_candidate_address(1, b("Apple")),
        derive_candidate_address(2, b("Apple"))
    );
    assert_eq!(
        derive_voter_address(b("alice"), 1),
        derive_voter_address(b("alice"), 1)
    );
    assert_ne!(
        derive_voter_address(b("alice"), 1),
        derive_voter_address(b("alice"), 2)
    );
    // Namespaces never overlap, whatever the seeds.
    assert_ne!(
        derive_poll_address(1),
        derive_candidate_address(1, Vec::new())
    );
    assert_ne!(derive_poll_address(1), derive_voter_address(Vec::new(), 1));
    assert!(matches!(derive_poll_address(3), Address::Poll { poll_id: 3 }));
}

#[test]
fn timestamp_validity_boundaries() {
    assert!(voting::validate::is_valid_unix_timestamp(1));
    assert!(voting::validate::is_valid_unix_timestamp(1_893_455_999));
    assert!(!voting::validate::is_valid_unix_timestamp(0));
    assert!(!voting::validate::is_valid_unix_timestamp(1_893_456_000));
    assert!(!voting::validate::is_valid_unix_timestamp(u64::MAX));
}
