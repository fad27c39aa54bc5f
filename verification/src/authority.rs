//! The authority under which a consensus result is attached to a proposal.
//!
//! Nobody holds a key for it. It is the seeds of the record, closed by the
//! nonce that was found when the record was located; whoever receives them
//! derives the identity they sign for and compares it with the record's
//! location.

use crate::address::created_address;
use crate::address::derive_identity;
use crate::address::same_address;
use crate::address::seed_list;
use crate::address::signer_seeds;
use crate::address::signing_identity;
use crate::address::signing_seeds;
use crate::address::Address;
use crate::store::consistent;
use crate::store::Handle;
use crate::store::StoredView;
use vstd::prelude::*;

verus! {

/// The authority of one record: the ballot it belongs to and the nonce of its
/// location.
#[derive(Debug, Clone, Copy, PartialEq, Eq)]
pub struct Authority {
    pub ballot_id: u64,
    pub bump: u8,
}

/// Whether `seeds`, presented under `program_id`, sign for `location`.
pub open spec fn signs_for(seeds: Seq<Seq<u8>>, program_id: Seq<u8>, location: Seq<u8>) -> bool {
    created_address(seeds, program_id) == Some(location)
}

impl Authority {
    /// The authority of the record of `ballot_id` that `handle` refers to. It
    /// takes its nonce from the handle, and from nowhere else.
    pub fn derive(ballot_id: u64, handle: &Handle) -> (r: Authority)
        ensures
            r.ballot_id == ballot_id,
            r.bump == handle.bump,
    {
        Authority { ballot_id, bump: handle.bump }
    }

    /// The seeds that present this authority.
    pub fn seeds(&self) -> (r: Vec<Vec<u8>>)
        ensures
            seed_list(&r) == signer_seeds(self.ballot_id, self.bump),
    {
        signing_seeds(self.ballot_id, self.bump)
    }

    /// The identity that this authority signs as under `program_id`: the same
    /// for the same ballot, nonce and program, whenever it is asked.
    pub fn identity(&self, program_id: &Address) -> (r: Option<Address>)
        ensures
            r is Some <==> signing_identity(program_id@, self.ballot_id, self.bump) is Some,
            r matches Some(address) ==> signing_identity(program_id@, self.ballot_id, self.bump)
                == Some(address@),
    {
        let seeds = self.seeds();
        derive_identity(&seeds, program_id)
    }
}

/// Decides whether `seeds`, presented under `program_id`, may act for the
/// record at `location`: they may where they derive to exactly that location.
/// This is the test that the receiver of an attach call makes.
pub fn authorizes(seeds: &Vec<Vec<u8>>, program_id: &Address, location: &Address) -> (r: bool)
    ensures
        r == signs_for(seed_list(seeds), program_id@, location@),
{
    match derive_identity(seeds, program_id) {
        Some(identity) => same_address(&identity, location),
        None => false,
    }
}

/// The authority of a record signs for the location of that record.
pub proof fn lemma_authority_signs_for_own_record(
    program_id: Seq<u8>,
    records: Map<Seq<u8>, StoredView>,
    location: Seq<u8>,
)
    requires
        consistent(program_id, records),
        records.contains_key(location),
    ensures
        signs_for(
            signer_seeds(records[location].record.ballot_id, records[location].bump),
            program_id,
            location,
        ),
{
}

/// The authority of one record never signs for another record of the same
/// store: presented for the record of a different ballot, it is refused.
pub proof fn lemma_authority_refused_for_other_record(
    program_id: Seq<u8>,
    records: Map<Seq<u8>, StoredView>,
    own: Seq<u8>,
    other: Seq<u8>,
)
    requires
        consistent(program_id, records),
        records.contains_key(own),
        records.contains_key(other),
        records[own].record.ballot_id != records[other].record.ballot_id,
    ensures
        own != other,
        !signs_for(
            signer_seeds(records[own].record.ballot_id, records[own].bump),
            program_id,
            other,
        ),
{
}

} // verus!
