//! The store of consensus results: one record per location, each location
//! derived from the ballot's identifier, each record written once.

use crate::address::locate;
use crate::address::located;
use crate::address::signing_identity;
use crate::address::same_address;
use crate::address::Address;
use crate::ballot::Ballot;
use crate::ballot::ConsensusResult;
use crate::ballot::RecordView;
use crate::error::StoreError;
use vstd::prelude::*;

verus! {

/// Refers to a record: where it lives, and the nonce that was found when the
/// location was derived.
#[derive(Debug, Clone, Copy, PartialEq, Eq)]
pub struct Handle {
    pub location: Address,
    pub bump: u8,
}

/// What the store holds at one location, as a mathematical value.
pub struct StoredView {
    pub bump: u8,
    pub record: RecordView,
}

/// Whether `location` and `bump` are what the derivation gives for
/// `ballot_id`: the search settles on them, and the signer seeds with that
/// nonce derive to that location.
pub open spec fn placed(program_id: Seq<u8>, ballot_id: u64, location: Seq<u8>, bump: u8) -> bool {
    &&& located(program_id, ballot_id) == Some((location, bump))
    &&& signing_identity(program_id, ballot_id, bump) == Some(location)
}

/// Every record lies where its ballot's identifier sends it, with the nonce
/// that the search gave.
pub open spec fn consistent(program_id: Seq<u8>, records: Map<Seq<u8>, StoredView>) -> bool {
    forall|location: Seq<u8>| #[trigger]
        records.contains_key(location) ==> placed(
            program_id,
            records[location].record.ballot_id,
            location,
            records[location].bump,
        )
}

/// A consistent store never holds two records of one ballot.
pub proof fn lemma_one_record_per_ballot(
    program_id: Seq<u8>,
    records: Map<Seq<u8>, StoredView>,
    first: Seq<u8>,
    second: Seq<u8>,
)
    requires
        consistent(program_id, records),
        records.contains_key(first),
        records.contains_key(second),
        records[first].record.ballot_id == records[second].record.ballot_id,
    ensures
        first == second,
{
}

struct Entry {
    location: Address,
    bump: u8,
    record: ConsensusResult,
}

/// The records of one program, keyed by location.
pub struct ConsensusStore {
    program_id: Address,
    entries: Vec<Entry>,
}

impl ConsensusStore {
    /// The program under whose identifier the locations are derived.
    pub closed spec fn program_id(&self) -> Seq<u8> {
        self.program_id@
    }

    spec fn holds(&self, i: int, location: Seq<u8>) -> bool {
        0 <= i < self.entries@.len() && self.entries@[i].location@ == location
    }

    spec fn index_of(&self, location: Seq<u8>) -> int {
        choose|i: int| self.holds(i, location)
    }

    /// The records by location.
    pub closed spec fn view(&self) -> Map<Seq<u8>, StoredView> {
        Map::new(
            |location: Seq<u8>| exists|i: int| self.holds(i, location),
            |location: Seq<u8>|
                StoredView {
                    bump: self.entries@[self.index_of(location)].bump,
                    record: self.entries@[self.index_of(location)].record@,
                },
        )
    }

    /// No two records share a location, and every record lies where its
    /// ballot's identifier sends it. Every store that this module hands out
    /// is well formed.
    pub closed spec fn wf(&self) -> bool {
        &&& forall|i: int, j: int|
            0 <= i < j < self.entries@.len() ==> self.entries@[i].location@
                != self.entries@[j].location@
        &&& forall|i: int|
            0 <= i < self.entries@.len() ==> placed(
                self.program_id@,
                (#[trigger] self.entries@[i]).record.ballot_id,
                self.entries@[i].location@,
                self.entries@[i].bump,
            )
    }

    proof fn lemma_entry(&self, i: int)
        requires
            self.wf(),
            0 <= i < self.entries@.len(),
        ensures
            self@.contains_key(self.entries@[i].location@),
            self@[self.entries@[i].location@] == (StoredView {
                bump: self.entries@[i].bump,
                record: self.entries@[i].record@,
            }),
    {
        assert(self.holds(i, self.entries@[i].location@));
    }

    /// In a well-formed store every record lies where its ballot's
    /// identifier sends it, and the records are finitely many.
    pub proof fn lemma_consistent(&self)
        requires
            self.wf(),
        ensures
            consistent(self.program_id(), self@),
            self@.dom().finite(),
    {
        self.lemma_dom();
        assert forall|location: Seq<u8>| #[trigger] self@.contains_key(location) implies placed(
            self.program_id(),
            self@[location].record.ballot_id,
            location,
            self@[location].bump,
        ) by {
            let i = self.index_of(location);
            self.lemma_entry(i);
        }
    }

    spec fn keys_below(&self, k: int) -> Set<Seq<u8>> {
        Set::new(|location: Seq<u8>| exists|i: int| 0 <= i < k && self.holds(i, location))
    }

    proof fn lemma_keys_below(&self, k: int)
        requires
            self.wf(),
            0 <= k <= self.entries@.len(),
        ensures
            self.keys_below(k).finite(),
            self.keys_below(k).len() == k,
        decreases k,
    {
        if k == 0 {
            assert(self.keys_below(0) =~= Set::<Seq<u8>>::empty());
        } else {
            self.lemma_keys_below(k - 1);
            let location = self.entries@[k - 1].location@;
            assert(self.holds(k - 1, location));
            assert(self.keys_below(k) =~= self.keys_below(k - 1).insert(location));
        }
    }

    proof fn lemma_dom(&self)
        requires
            self.wf(),
        ensures
            self@.dom().finite(),
            self@.dom().len() == self.entries@.len(),
    {
        self.lemma_keys_below(self.entries@.len() as int);
        assert(self@.dom() =~= self.keys_below(self.entries@.len() as int));
    }

    /// An empty store for the records of `program_id`.
    pub fn new(program_id: Address) -> (r: ConsensusStore)
        ensures
            r.wf(),
            r.program_id() == program_id@,
            r@ == Map::<Seq<u8>, StoredView>::empty(),
    {
        let r = ConsensusStore { program_id, entries: Vec::new() };
        r
    }

    /// The identifier of the program that owns the records.
    pub fn program(&self) -> (r: Address)
        ensures
            r@ == self.program_id(),
    {
        self.program_id
    }

    /// Derives where the record of `ballot_id` lives. Nothing is created.
    pub fn locate(&self, ballot_id: u64) -> (r: Option<Handle>)
        ensures
            r is Some <==> located(self.program_id(), ballot_id) is Some,
            r matches Some(handle) ==> placed(
                self.program_id(),
                ballot_id,
                handle.location@,
                handle.bump,
            ),
    {
        match locate(&self.program_id, ballot_id) {
            Some((location, bump)) => Some(Handle { location, bump }),
            None => None,
        }
    }

    fn position(&self, location: &Address) -> (r: Option<usize>)
        requires
            self.wf(),
        ensures
            match r {
                Some(i) => self.holds(i as int, location@) && self@.contains_key(location@),
                None => !self@.contains_key(location@),
            },
    {
        let mut i: usize = 0;
        while i < self.entries.len()
            invariant
                i <= self.entries@.len(),
                forall|j: int| 0 <= j < i ==> !self.holds(j, location@),
            decreases self.entries@.len() - i,
        {
            if same_address(&self.entries[i].location, location) {
                return Some(i);
            }
            i += 1;
        }
        None
    }

    /// Whether a record lives at `location`.
    pub fn is_occupied(&self, location: &Address) -> (r: bool)
        requires
            self.wf(),
        ensures
            r == self@.contains_key(location@),
    {
        self.position(location).is_some()
    }

    /// Creates the record of `ballot_id` at the location that `handle` names,
    /// unless that location is occupied. An existing record is never
    /// overwritten.
    pub fn create_at(&mut self, handle: Handle, ballot_id: u64, payload: Ballot) -> (r: Result<
        Handle,
        StoreError,
    >)
        requires
            old(self).wf(),
            placed(old(self).program_id(), ballot_id, handle.location@, handle.bump),
        ensures
            final(self).wf(),
            final(self).program_id() == old(self).program_id(),
            old(self)@.contains_key(handle.location@) ==> r == Err::<Handle, StoreError>(
                StoreError::AlreadyExists,
            ) && final(self)@ == old(self)@,
            !old(self)@.contains_key(handle.location@) ==> r == Ok::<Handle, StoreError>(handle)
                && final(self)@ == old(self)@.insert(
                handle.location@,
                StoredView {
                    bump: handle.bump,
                    record: RecordView { ballot_id, ballot: payload@ },
                },
            ),
    {
        if self.position(&handle.location).is_some() {
            return Err(StoreError::AlreadyExists);
        }
        let ghost before = *self;
        let entry = Entry {
            location: handle.location,
            bump: handle.bump,
            record: ConsensusResult { ballot_id, ballot: payload },
        };
        self.entries.push(entry);
        proof {
            let n = before.entries@.len() as int;
            assert forall|i: int| 0 <= i < n implies self.entries@[i] == before.entries@[i] by {}
            assert forall|i: int| 0 <= i < n implies self.entries@[i].location@
                != handle.location@ by {
                if before.entries@[i].location@ == handle.location@ {
                    assert(before.holds(i, handle.location@));
                }
            }
            let stored = StoredView {
                bump: handle.bump,
                record: RecordView { ballot_id, ballot: payload@ },
            };
            let expected = before@.insert(handle.location@, stored);
            assert forall|k: Seq<u8>| self@.contains_key(k) <==> expected.contains_key(k) by {
                if self@.contains_key(k) {
                    let i = choose|i: int| self.holds(i, k);
                    if i < n {
                        assert(before.holds(i, k));
                    }
                }
                if expected.contains_key(k) && k != handle.location@ {
                    let i = choose|i: int| before.holds(i, k);
                    assert(self.holds(i, k));
                }
                if k == handle.location@ {
                    assert(self.holds(n, k));
                }
            }
            assert forall|k: Seq<u8>| self@.contains_key(k) implies self@[k] == expected[k] by {
                let i = choose|i: int| self.holds(i, k);
                self.lemma_entry(i);
                if i < n {
                    before.lemma_entry(i);
                }
            }
        }
        Ok(handle)
    }

    /// Creates the record of `ballot_id` with the given outcome, at the
    /// location derived from the identifier. Fails where no location can be
    /// derived, and where the location is occupied: the store is then
    /// unchanged.
    pub fn create(&mut self, ballot_id: u64, payload: Ballot) -> (r: Result<Handle, StoreError>)
        requires
            old(self).wf(),
        ensures
            final(self).wf(),
            final(self).program_id() == old(self).program_id(),
            match located(old(self).program_id(), ballot_id) {
                None => r == Err::<Handle, StoreError>(StoreError::Unaddressable) && final(self)@
                    == old(self)@,
                Some((location, bump)) => if old(self)@.contains_key(location) {
                    r == Err::<Handle, StoreError>(StoreError::AlreadyExists) && final(self)@
                        == old(self)@
                } else {
                    &&& r matches Ok(handle)
                    &&& handle.location@ == location
                    &&& handle.bump == bump
                    &&& final(self)@ == old(self)@.insert(
                        location,
                        StoredView { bump, record: RecordView { ballot_id, ballot: payload@ } },
                    )
                },
            },
    {
        match self.locate(ballot_id) {
            None => Err(StoreError::Unaddressable),
            Some(handle) => self.create_at(handle, ballot_id, payload),
        }
    }

    /// Reads the record that `handle` refers to, as the store holds it now.
    pub fn refresh(&self, handle: &Handle) -> (r: Option<ConsensusResult>)
        requires
            self.wf(),
        ensures
            r is Some <==> self@.contains_key(handle.location@),
            r matches Some(record) ==> record@ == self@[handle.location@].record,
    {
        match self.position(&handle.location) {
            Some(i) => {
                proof {
                    self.lemma_entry(i as int);
                }
                Some(self.entries[i].record.clone())
            },
            None => None,
        }
    }

    /// Reads the record of `ballot_id`, if the ballot has been finalized.
    pub fn get(&self, ballot_id: u64) -> (r: Option<ConsensusResult>)
        requires
            self.wf(),
        ensures
            match located(self.program_id(), ballot_id) {
                Some((location, _)) => {
                    &&& r is Some <==> self@.contains_key(location)
                    &&& r matches Some(record) ==> record@ == self@[location].record
                },
                None => r is None,
            },
    {
        match self.locate(ballot_id) {
            Some(handle) => self.refresh(&handle),
            None => None,
        }
    }

    /// Takes back the record at `location`, as if it had never been created.
    /// A location that holds nothing is left alone.
    pub(crate) fn discard(&mut self, location: &Address)
        requires
            old(self).wf(),
        ensures
            final(self).wf(),
            final(self).program_id() == old(self).program_id(),
            final(self)@ == old(self)@.remove(location@),
    {
        let ghost before = *self;
        match self.position(location) {
            None => {},
            Some(i) => {
                self.entries.remove(i);
                proof {
                    let n = before.entries@.len() as int;
                    let at = i as int;
                    assert forall|j: int| 0 <= j < n - 1 implies self.entries@[j]
                        == before.entries@[if j < at { j } else { j + 1 }] by {}
                    let expected = before@.remove(location@);
                    assert forall|k: Seq<u8>| self@.contains_key(k) <==> expected.contains_key(
                        k,
                    ) by {
                        if self@.contains_key(k) {
                            let j = choose|j: int| self.holds(j, k);
                            let old_j = if j < at { j } else { j + 1 };
                            assert(before.holds(old_j, k));
                        }
                        if expected.contains_key(k) {
                            let j = choose|j: int| before.holds(j, k);
                            let new_j = if j < at { j } else { j - 1 };
                            assert(self.holds(new_j, k));
                        }
                    }
                    assert forall|k: Seq<u8>| self@.contains_key(k) implies self@[k]
                        == expected[k] by {
                        let j = choose|j: int| self.holds(j, k);
                        let old_j = if j < at { j } else { j + 1 };
                        self.lemma_entry(j);
                        before.lemma_entry(old_j);
                    }
                }
            },
        }
    }

    /// How many records the store holds.
    pub fn len(&self) -> (r: usize)
        requires
            self.wf(),
        ensures
            r == self@.dom().len(),
            self@.dom().finite(),
    {
        proof {
            self.lemma_dom();
        }
        self.entries.len()
    }
}

} // verus!
