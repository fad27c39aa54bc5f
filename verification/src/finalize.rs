//! Finalizing a ballot: the outcome is recorded once, and the record is
//! attached to the proposal under the record's own authority. Either both
//! happen or the store is left as it was.
//!
//! The attach call itself is made outside this library. `handler` does what
//! comes before it and says which call to make; `settle` takes the call's
//! outcome and keeps or takes back the record. `finalize` runs the three in
//! one step, around a function that makes the call.

use crate::address::seed_list;
use crate::address::signer_seeds;
use crate::address::located;
use crate::address::Address;
use crate::authority::signs_for;
use crate::authority::Authority;
use crate::ballot::BallotBox;
use crate::ballot::ConsensusResult;
use crate::ballot::RecordView;
use crate::error::AttachError;
use crate::error::FinalizeError;
use crate::store::consistent;
use crate::store::ConsensusStore;
use crate::store::StoredView;
use vstd::pervasive::unreached;
use vstd::prelude::*;

verus! {

/// What one finalization works on: the ballot box it reads, the proposal that
/// the result is attached to, and the program that holds the proposal.
#[derive(Debug)]
pub struct FinalizeBallot {
    pub ballot_box: BallotBox,
    pub proposal: Address,
    pub govcontract_program: Address,
}

/// The attach call that finalization asks for: the program to call, the
/// proposal, the record with its location, and the seeds that sign for it.
#[derive(Debug)]
pub struct AttachCall {
    program: Address,
    proposal: Address,
    consensus_result: Address,
    record: ConsensusResult,
    signer_seeds: Vec<Vec<u8>>,
}

/// An attach call as a mathematical value.
pub struct AttachCallView {
    pub program: Seq<u8>,
    pub proposal: Seq<u8>,
    pub consensus_result: Seq<u8>,
    pub record: RecordView,
    pub signer_seeds: Seq<Seq<u8>>,
}

impl View for AttachCall {
    type V = AttachCallView;

    closed spec fn view(&self) -> AttachCallView {
        AttachCallView {
            program: self.program@,
            proposal: self.proposal@,
            consensus_result: self.consensus_result@,
            record: self.record@,
            signer_seeds: seed_list(&self.signer_seeds),
        }
    }
}

impl AttachCall {
    /// The program to call.
    pub fn program(&self) -> (r: Address)
        ensures
            r@ == self@.program,
    {
        self.program
    }

    /// The proposal that the record is attached to.
    pub fn proposal(&self) -> (r: Address)
        ensures
            r@ == self@.proposal,
    {
        self.proposal
    }

    /// Where the record lives.
    pub fn consensus_result(&self) -> (r: Address)
        ensures
            r@ == self@.consensus_result,
    {
        self.consensus_result
    }

    /// The record, as the store held it when the call was prepared.
    pub fn record(&self) -> (r: &ConsensusResult)
        ensures
            r@ == self@.record,
    {
        &self.record
    }

    /// The seeds that sign for the record.
    pub fn signer_seeds(&self) -> (r: &Vec<Vec<u8>>)
        ensures
            seed_list(r) == self@.signer_seeds,
    {
        &self.signer_seeds
    }
}

/// What the store holds for a ballot box once it is finalized with the nonce
/// `bump`: the box's identifier and its winning outcome.
pub open spec fn finalized_record(ballot_box: BallotBox, bump: u8) -> StoredView {
    StoredView {
        bump,
        record: RecordView {
            ballot_id: ballot_box.ballot_id,
            ballot: ballot_box.winning_ballot@,
        },
    }
}

/// Whether a finalization may go ahead, and where: the location and nonce of
/// the new record, or the reason for refusing. The tally is asked first, then
/// the derivation, then the store.
pub open spec fn admitted(
    program_id: Seq<u8>,
    records: Map<Seq<u8>, StoredView>,
    ballot_box: BallotBox,
) -> Result<(Seq<u8>, u8), FinalizeError> {
    if !ballot_box.consensus_reached {
        Err(FinalizeError::ConsensusNotReached)
    } else {
        match located(program_id, ballot_box.ballot_id) {
            None => Err(FinalizeError::Unaddressable),
            Some((location, bump)) => if records.contains_key(location) {
                Err(FinalizeError::AlreadyExists)
            } else {
                Ok((location, bump))
            },
        }
    }
}

/// The attach call of a finalization that goes ahead at `location` with
/// `bump`.
pub open spec fn attach_call(accounts: FinalizeBallot, location: Seq<u8>, bump: u8) -> AttachCallView {
    AttachCallView {
        program: accounts.govcontract_program@,
        proposal: accounts.proposal@,
        consensus_result: location,
        record: finalized_record(accounts.ballot_box, bump).record,
        signer_seeds: signer_seeds(accounts.ballot_box.ballot_id, bump),
    }
}

/// Prepares a finalization. Where it is admitted, the record is created and
/// the attach call to make is returned; the seeds in that call sign for the
/// record's location. Where it is refused, the error says why and the store
/// is unchanged.
pub fn handler(store: &mut ConsensusStore, accounts: &FinalizeBallot) -> (r: Result<
    AttachCall,
    FinalizeError,
>)
    requires
        old(store).wf(),
    ensures
        final(store).wf(),
        final(store).program_id() == old(store).program_id(),
        !accounts.ballot_box.consensus_reached ==> r == Err::<AttachCall, FinalizeError>(
            FinalizeError::ConsensusNotReached,
        ) && final(store)@ == old(store)@,
        match admitted(old(store).program_id(), old(store)@, accounts.ballot_box) {
            Err(e) => r == Err::<AttachCall, FinalizeError>(e) && final(store)@ == old(store)@,
            Ok((location, bump)) => {
                &&& r matches Ok(call)
                &&& call@ == attach_call(*accounts, location, bump)
                &&& signs_for(call@.signer_seeds, old(store).program_id(), location)
                &&& final(store)@ == old(store)@.insert(
                    location,
                    finalized_record(accounts.ballot_box, bump),
                )
            },
        },
{
    let ballot_box = &accounts.ballot_box;
    if !ballot_box.has_consensus_reached() {
        return Err(FinalizeError::ConsensusNotReached);
    }
    let handle = match store.create(ballot_box.ballot_id, ballot_box.winning_ballot.clone()) {
        Ok(handle) => handle,
        Err(e) => {
            return Err(FinalizeError::from_store(e));
        },
    };
    proof {
        store.lemma_consistent();
    }
    let authority = Authority::derive(ballot_box.ballot_id, &handle);
    let record = match store.refresh(&handle) {
        Some(record) => record,
        None => unreached(),
    };
    Ok(
        AttachCall {
            program: accounts.govcontract_program,
            proposal: accounts.proposal,
            consensus_result: handle.location,
            record,
            signer_seeds: authority.seeds(),
        },
    )
}

/// Concludes a finalization with the outcome of its attach call. After a
/// call that succeeded the record stays. After one that failed the record is
/// taken back, and the proposal's reason is returned as it came.
pub fn settle(store: &mut ConsensusStore, call: AttachCall, outcome: Result<(), AttachError>) -> (r:
    Result<(), FinalizeError>)
    requires
        old(store).wf(),
    ensures
        final(store).wf(),
        final(store).program_id() == old(store).program_id(),
        match outcome {
            Ok(_) => r == Ok::<(), FinalizeError>(()) && final(store)@ == old(store)@,
            Err(e) => r == Err::<(), FinalizeError>(FinalizeError::of_attach(e)) && final(store)@
                == old(store)@.remove(call@.consensus_result),
        },
{
    match outcome {
        Ok(_) => Ok(()),
        Err(e) => {
            store.discard(&call.consensus_result);
            Err(FinalizeError::from_attach(e))
        },
    }
}

/// How a finalization ends and what the store holds afterwards, given the
/// outcome that its attach call has if the call is made.
pub open spec fn finalized(
    program_id: Seq<u8>,
    records: Map<Seq<u8>, StoredView>,
    ballot_box: BallotBox,
    outcome: Result<(), AttachError>,
) -> (Result<(), FinalizeError>, Map<Seq<u8>, StoredView>) {
    match admitted(program_id, records, ballot_box) {
        Err(e) => (Err(e), records),
        Ok((location, bump)) => match outcome {
            Ok(_) => (Ok(()), records.insert(location, finalized_record(ballot_box, bump))),
            Err(e) => (Err(FinalizeError::of_attach(e)), records),
        },
    }
}

/// Finalizes a ballot in one step. `attach` makes the attach call and
/// reports its outcome; it is called once where the finalization is
/// admitted, and not at all where it is refused. The result and the store
/// are those of `finalized` for the outcome that `attach` reported: the
/// record is there after a success, and after any failure the store is as it
/// was.
pub fn finalize<F: FnOnce(&AttachCall) -> Result<(), AttachError>>(
    store: &mut ConsensusStore,
    accounts: &FinalizeBallot,
    attach: F,
) -> (r: Result<(), FinalizeError>)
    requires
        old(store).wf(),
        forall|call: &AttachCall| call_requires(attach, (call,)),
    ensures
        final(store).wf(),
        final(store).program_id() == old(store).program_id(),
        !accounts.ballot_box.consensus_reached ==> r == Err::<(), FinalizeError>(
            FinalizeError::ConsensusNotReached,
        ) && final(store)@ == old(store)@,
        r is Err ==> final(store)@ == old(store)@,
        r is Ok ==> {
            &&& admitted(old(store).program_id(), old(store)@, accounts.ballot_box) matches Ok(
                (location, bump),
            )
            &&& !old(store)@.contains_key(location)
            &&& final(store)@ == old(store)@.insert(
                location,
                finalized_record(accounts.ballot_box, bump),
            )
        },
        match admitted(old(store).program_id(), old(store)@, accounts.ballot_box) {
            Err(e) => r == Err::<(), FinalizeError>(e),
            Ok((location, bump)) => exists|call: AttachCall, outcome: Result<(), AttachError>|
                {
                    &&& call@ == attach_call(*accounts, location, bump)
                    &&& signs_for(call@.signer_seeds, old(store).program_id(), location)
                    &&& call_ensures(attach, (&call,), outcome)
                    &&& (r, final(store)@) == finalized(
                        old(store).program_id(),
                        old(store)@,
                        accounts.ballot_box,
                        outcome,
                    )
                },
        },
{
    let call = match handler(store, accounts) {
        Ok(call) => call,
        Err(e) => {
            return Err(e);
        },
    };
    let outcome = attach(&call);
    settle(store, call, outcome)
}

/// Taking back a record that was just created leaves the store as it was
/// before the creation.
pub proof fn lemma_rollback_restores(
    records: Map<Seq<u8>, StoredView>,
    location: Seq<u8>,
    stored: StoredView,
)
    requires
        !records.contains_key(location),
    ensures
        records.insert(location, stored).remove(location) == records,
        !records.insert(location, stored).remove(location).contains_key(location),
{
}

/// A finalization whose attach call fails leaves no record of the ballot
/// behind: the store is as it was, and holds nothing at the ballot's
/// location.
pub proof fn lemma_failed_call_leaves_no_record(
    program_id: Seq<u8>,
    records: Map<Seq<u8>, StoredView>,
    ballot_box: BallotBox,
    reason: AttachError,
)
    requires
        admitted(program_id, records, ballot_box) is Ok,
    ensures
        finalized(program_id, records, ballot_box, Err(reason)) == (
            Err::<(), FinalizeError>(FinalizeError::of_attach(reason)),
            records,
        ),
        located(program_id, ballot_box.ballot_id) matches Some((location, _))
            && !finalized(program_id, records, ballot_box, Err(reason)).1.contains_key(location),
{
}

/// Without consensus a finalization fails with `ConsensusNotReached`,
/// whatever the store holds and whatever the attach call would have done, and
/// the store is unchanged.
pub proof fn lemma_no_consensus_no_record(
    program_id: Seq<u8>,
    records: Map<Seq<u8>, StoredView>,
    ballot_box: BallotBox,
    outcome: Result<(), AttachError>,
)
    requires
        !ballot_box.consensus_reached,
    ensures
        finalized(program_id, records, ballot_box, outcome) == (
            Err::<(), FinalizeError>(FinalizeError::ConsensusNotReached),
            records,
        ),
{
}

/// A finalization that succeeds adds exactly one record, at the ballot's
/// location, and the record holds the ballot box's identifier and winning
/// outcome. Every other record is untouched, and the store stays consistent.
pub proof fn lemma_success_adds_one_record(
    program_id: Seq<u8>,
    records: Map<Seq<u8>, StoredView>,
    ballot_box: BallotBox,
    outcome: Result<(), AttachError>,
)
    requires
        records.dom().finite(),
        finalized(program_id, records, ballot_box, outcome).0 is Ok,
    ensures
        located(program_id, ballot_box.ballot_id) matches Some((location, bump)) && {
            let after = finalized(program_id, records, ballot_box, outcome).1;
            &&& !records.contains_key(location)
            &&& after.contains_key(location)
            &&& after[location].record.ballot_id == ballot_box.ballot_id
            &&& after[location].record.ballot == ballot_box.winning_ballot@
            &&& after.remove(location) == records
            &&& after.dom().len() == records.dom().len() + 1
        },
{
}

/// Once a ballot has a record, every further finalization of that ballot
/// whose tally has reached consensus fails with `AlreadyExists`, and the
/// store, the first record included, is unchanged.
pub proof fn lemma_second_finalize_conflicts(
    program_id: Seq<u8>,
    records: Map<Seq<u8>, StoredView>,
    existing: Seq<u8>,
    ballot_box: BallotBox,
    outcome: Result<(), AttachError>,
)
    requires
        consistent(program_id, records),
        records.contains_key(existing),
        records[existing].record.ballot_id == ballot_box.ballot_id,
        ballot_box.consensus_reached,
    ensures
        finalized(program_id, records, ballot_box, outcome) == (
            Err::<(), FinalizeError>(FinalizeError::AlreadyExists),
            records,
        ),
{
}

/// Ballots that live at different locations do not stand in each other's
/// way: however the finalization of one ends, whether the other is admitted
/// is what it was before.
pub proof fn lemma_other_ballot_unaffected(
    program_id: Seq<u8>,
    records: Map<Seq<u8>, StoredView>,
    first: BallotBox,
    second: BallotBox,
    outcome: Result<(), AttachError>,
)
    requires
        located(program_id, first.ballot_id) matches Some((here, _)) && located(
            program_id,
            second.ballot_id,
        ) matches Some((there, _)) && here != there,
    ensures
        admitted(program_id, finalized(program_id, records, first, outcome).1, second) == admitted(
            program_id,
            records,
            second,
        ),
{
}

/// What `n` finalizations of one ballot box give, one after another on the
/// same store, where every attach call that is made succeeds: the results in
/// order, and the store at the end.
pub open spec fn repeated(
    program_id: Seq<u8>,
    records: Map<Seq<u8>, StoredView>,
    ballot_box: BallotBox,
    n: nat,
) -> (Seq<Result<(), FinalizeError>>, Map<Seq<u8>, StoredView>)
    decreases n,
{
    if n == 0 {
        (Seq::empty(), records)
    } else {
        let first = finalized(program_id, records, ballot_box, Ok(()));
        let rest = repeated(program_id, first.1, ballot_box, (n - 1) as nat);
        (seq![first.0] + rest.0, rest.1)
    }
}

/// Of any number of finalizations of one ballot that race for the same
/// store, each running as one unit, exactly the first to run succeeds. Every
/// other fails with `AlreadyExists`, and the store ends with the one record.
pub proof fn lemma_single_winner(
    program_id: Seq<u8>,
    records: Map<Seq<u8>, StoredView>,
    ballot_box: BallotBox,
    n: nat,
)
    requires
        n >= 1,
        admitted(program_id, records, ballot_box) is Ok,
    ensures
        ({
            let (results, after) = repeated(program_id, records, ballot_box, n);
            let (location, bump) = admitted(program_id, records, ballot_box)->Ok_0;
            &&& results.len() == n
            &&& results[0] == Ok::<(), FinalizeError>(())
            &&& forall|i: int|
                1 <= i < n ==> results[i] == Err::<(), FinalizeError>(
                    FinalizeError::AlreadyExists,
                )
            &&& after == records.insert(location, finalized_record(ballot_box, bump))
        }),
{
    let (location, bump) = admitted(program_id, records, ballot_box)->Ok_0;
    let won = records.insert(location, finalized_record(ballot_box, bump));
    lemma_losers(program_id, won, ballot_box, (n - 1) as nat);
}

/// Where the ballot's location is occupied, every one of `n` finalizations
/// fails with `AlreadyExists` and the store is unchanged.
pub proof fn lemma_losers(
    program_id: Seq<u8>,
    records: Map<Seq<u8>, StoredView>,
    ballot_box: BallotBox,
    n: nat,
)
    requires
        admitted(program_id, records, ballot_box) == Err::<(Seq<u8>, u8), FinalizeError>(
            FinalizeError::AlreadyExists,
        ),
    ensures
        repeated(program_id, records, ballot_box, n).0.len() == n,
        forall|i: int|
            0 <= i < n ==> repeated(program_id, records, ballot_box, n).0[i] == Err::<
                (),
                FinalizeError,
            >(FinalizeError::AlreadyExists),
        repeated(program_id, records, ballot_box, n).1 == records,
    decreases n,
{
    if n > 0 {
        lemma_losers(program_id, records, ballot_box, (n - 1) as nat);
    }
}

} // verus!
