use gov_v1::address::Address;
use gov_v1::ballot::Ballot;
use gov_v1::ballot::BallotBox;
use gov_v1::ballot::ConsensusResult;
use gov_v1::error::AttachError;
use gov_v1::error::FinalizeError;
use gov_v1::error::StoreError;
use gov_v1::store::ConsensusStore;

const PROGRAM: Address = [9u8; 32];

#[test]
fn new_store_is_empty() {
    let store = ConsensusStore::new(PROGRAM);
    assert_eq!(store.len(), 0);
    assert_eq!(store.program(), PROGRAM);
    assert_eq!(store.get(42), None);
}

#[test]
fn create_writes_both_fields() {
    let mut store = ConsensusStore::new(PROGRAM);
    let handle = store.create(42, Ballot::new(vec![1, 2, 3])).unwrap();
    assert_eq!(Some(handle), store.locate(42));
    assert_eq!(handle.bump, 255);
    assert!(store.is_occupied(&handle.location));
    assert_eq!(store.len(), 1);
    let record = store.refresh(&handle).unwrap();
    assert_eq!(record, ConsensusResult { ballot_id: 42, ballot: Ballot::new(vec![1, 2, 3]) });
    assert_eq!(store.get(42), Some(record));
}

#[test]
fn create_twice_fails_and_keeps_the_first() {
    let mut store = ConsensusStore::new(PROGRAM);
    let handle = store.create(42, Ballot::new(vec![1])).unwrap();
    assert_eq!(store.create(42, Ballot::new(vec![2])), Err(StoreError::AlreadyExists));
    assert_eq!(store.len(), 1);
    assert_eq!(store.refresh(&handle).unwrap().ballot, Ballot::new(vec![1]));
}

#[test]
fn create_at_refuses_an_occupied_location() {
    let mut store = ConsensusStore::new(PROGRAM);
    let handle = store.locate(5).unwrap();
    assert_eq!(store.create_at(handle, 5, Ballot::new(vec![5])), Ok(handle));
    assert_eq!(store.create_at(handle, 5, Ballot::new(vec![6])), Err(StoreError::AlreadyExists));
    assert_eq!(store.get(5).unwrap().ballot, Ballot::new(vec![5]));
}

#[test]
fn distinct_ballots_live_apart() {
    let mut store = ConsensusStore::new(PROGRAM);
    let first = store.create(42, Ballot::new(vec![1])).unwrap();
    let second = store.create(43, Ballot::new(vec![2])).unwrap();
    assert_ne!(first.location, second.location);
    assert_eq!(second.bump, 254);
    assert_eq!(store.len(), 2);
    assert_eq!(store.get(42).unwrap().ballot, Ballot::new(vec![1]));
    assert_eq!(store.get(43).unwrap().ballot, Ballot::new(vec![2]));
    assert_eq!(store.get(44), None);
}

#[test]
fn refresh_of_an_empty_location_is_none() {
    let store = ConsensusStore::new(PROGRAM);
    let handle = store.locate(42).unwrap();
    assert_eq!(store.refresh(&handle), None);
    assert!(!store.is_occupied(&handle.location));
}

#[test]
fn an_empty_payload_is_stored_as_it_is() {
    let mut store = ConsensusStore::new(PROGRAM);
    store.create(0, Ballot::new(Vec::new())).unwrap();
    assert_eq!(store.get(0), Some(ConsensusResult { ballot_id: 0, ballot: Ballot::new(Vec::new()) }));
}

#[test]
fn ballot_clone_keeps_the_payload() {
    let ballot = Ballot::new(vec![9, 8, 7]);
    let copy = ballot.clone();
    assert_eq!(copy, ballot);
    assert_eq!(copy.payload, vec![9, 8, 7]);
    let record = ConsensusResult { ballot_id: 3, ballot };
    assert_eq!(record.clone(), record);
}

#[test]
fn ballot_box_reports_its_tally() {
    let open = BallotBox::new(1, Ballot::new(vec![1]), false);
    let closed = BallotBox::new(1, Ballot::new(vec![1]), true);
    assert!(!open.has_consensus_reached());
    assert!(closed.has_consensus_reached());
    assert_eq!(closed.ballot_id, 1);
    assert_eq!(closed.winning_ballot, Ballot::new(vec![1]));
}

#[test]
fn store_errors_become_finalize_errors() {
    assert_eq!(FinalizeError::from_store(StoreError::AlreadyExists), FinalizeError::AlreadyExists);
    assert_eq!(FinalizeError::from_store(StoreError::Unaddressable), FinalizeError::Unaddressable);
}

#[test]
fn attach_errors_are_passed_on_unchanged() {
    assert_eq!(
        FinalizeError::from_attach(AttachError::AuthorityMismatch),
        FinalizeError::AuthorityMismatch
    );
    assert_eq!(
        FinalizeError::from_attach(AttachError::Rejected(6001)),
        FinalizeError::ExternalCallFailed(6001)
    );
    assert_eq!(FinalizeError::from_attach(AttachError::Rejected(0)), FinalizeError::ExternalCallFailed(0));
}

#[test]
fn only_an_unready_tally_or_a_failed_call_is_worth_retrying() {
    assert!(FinalizeError::ConsensusNotReached.is_retryable());
    assert!(FinalizeError::ExternalCallFailed(1).is_retryable());
    assert!(!FinalizeError::AlreadyExists.is_retryable());
    assert!(!FinalizeError::AuthorityMismatch.is_retryable());
    assert!(!FinalizeError::Unaddressable.is_retryable());
}
