//! Deterministic addressing of consensus results.
//!
//! A record lives at a program-derived address: the hash of a fixed label, the
//! ballot's identifier in little-endian bytes, a one-byte nonce and the
//! identifier of the owning program. The hashing itself is the work of
//! `anchor_lang`; this module builds the seeds and states what the rest of the
//! library relies on.

use anchor_lang::prelude::Pubkey;
use anchor_lang::solana_program::pubkey::PubkeyError;
use vstd::bytes::lemma_auto_spec_u64_to_from_le_bytes;
use vstd::bytes::spec_u64_from_le_bytes;
use vstd::bytes::spec_u64_to_le_bytes;
use vstd::bytes::u64_to_le_bytes;
use vstd::prelude::*;

verus! {

/// A location in the store, or the identity of a program or of a signer.
pub type Address = [u8; 32];

/// The label that opens every seed list of a consensus result: the ASCII
/// bytes of `ConsensusResult`.
pub open spec fn label_bytes() -> Seq<u8> {
    seq![67u8, 111u8, 110u8, 115u8, 101u8, 110u8, 115u8, 117u8, 115u8, 82u8, 101u8, 115u8, 117u8, 108u8, 116u8]
}

/// The seeds that locate the record of `ballot_id`: the label, then the
/// identifier in little-endian order.
pub open spec fn record_seeds(ballot_id: u64) -> Seq<Seq<u8>> {
    seq![label_bytes(), spec_u64_to_le_bytes(ballot_id)]
}

/// The seeds that sign for the record of `ballot_id`: its locating seeds
/// followed by the nonce as a seed of one byte.
pub open spec fn signer_seeds(ballot_id: u64, bump: u8) -> Seq<Seq<u8>> {
    record_seeds(ballot_id).push(seq![bump])
}

/// The location and nonce of the record of `ballot_id` under `program_id`,
/// if the search finds one.
pub open spec fn located(program_id: Seq<u8>, ballot_id: u64) -> Option<(Seq<u8>, u8)> {
    found_address(record_seeds(ballot_id), program_id)
}

/// The identity that the signer seeds of `ballot_id` with `bump` derive to
/// under `program_id`, if they derive to one.
pub open spec fn signing_identity(program_id: Seq<u8>, ballot_id: u64, bump: u8) -> Option<Seq<u8>> {
    created_address(signer_seeds(ballot_id, bump), program_id)
}

/// A list of seeds as the byte sequences it holds.
pub open spec fn seed_list(seeds: &Vec<Vec<u8>>) -> Seq<Seq<u8>> {
    Seq::new(seeds@.len(), |i: int| seeds@[i]@)
}

/// What `Pubkey::try_find_program_address` returns for the given seeds and
/// program: the address and the nonce it settled on, or `None`.
pub uninterp spec fn found_address(seeds: Seq<Seq<u8>>, program_id: Seq<u8>) -> Option<(Seq<u8>, u8)>;

/// What `Pubkey::create_program_address` returns for the given seeds and
/// program: the address, or `None` where it returns an error.
pub uninterp spec fn created_address(seeds: Seq<Seq<u8>>, program_id: Seq<u8>) -> Option<Seq<u8>>;

#[verifier::external_type_specification]
#[verifier::external_body]
pub struct ExPubkeyError(PubkeyError);

/// Calls `Pubkey::try_find_program_address`, which tries the nonces from 255
/// downwards and returns the first for which `Pubkey::create_program_address`
/// accepts the seeds followed by that nonce, together with the address it
/// gave. The contract names that result and records the link between the two
/// functions.
#[verifier::external_body]
fn find_program_address(seeds: &Vec<Vec<u8>>, program_id: &Address) -> (r: Option<(Address, u8)>)
    ensures
        r is Some <==> found_address(seed_list(seeds), program_id@) is Some,
        r matches Some((address, bump)) ==> {
            &&& found_address(seed_list(seeds), program_id@) == Some((address@, bump))
            &&& created_address(seed_list(seeds).push(seq![bump]), program_id@) == Some(address@)
        },
{
    let parts: Vec<&[u8]> = seeds.iter().map(|s| s.as_slice()).collect();
    match Pubkey::try_find_program_address(&parts, &Pubkey::new_from_array(*program_id)) {
        Some((key, bump)) => Some((key.to_bytes(), bump)),
        None => None,
    }
}

/// Calls `Pubkey::create_program_address`, which hashes the seeds with the
/// program's identifier and refuses a result that lies on the curve. The
/// contract names the address; nothing is said of which error comes.
#[verifier::external_body]
fn create_program_address(seeds: &Vec<Vec<u8>>, program_id: &Address) -> (r: Result<Address, PubkeyError>)
    ensures
        r is Ok <==> created_address(seed_list(seeds), program_id@) is Some,
        r matches Ok(address) ==> created_address(seed_list(seeds), program_id@) == Some(address@),
{
    let parts: Vec<&[u8]> = seeds.iter().map(|s| s.as_slice()).collect();
    match Pubkey::create_program_address(&parts, &Pubkey::new_from_array(*program_id)) {
        Ok(key) => Ok(key.to_bytes()),
        Err(e) => Err(e),
    }
}

/// Whether two addresses hold the same bytes.
pub fn same_address(a: &Address, b: &Address) -> (r: bool)
    ensures
        r == (a@ == b@),
{
    let mut i: usize = 0;
    while i < 32
        invariant
            i <= 32,
            forall|j: int| 0 <= j < i ==> a@[j] == b@[j],
        decreases 32 - i,
    {
        if a[i] != b[i] {
            return false;
        }
        i += 1;
    }
    assert(a@ =~= b@);
    true
}

/// The label as owned bytes.
pub fn label() -> (r: Vec<u8>)
    ensures
        r@ == label_bytes(),
{
    let r: Vec<u8> = vec![67u8, 111u8, 110u8, 115u8, 101u8, 110u8, 115u8, 117u8, 115u8, 82u8, 101u8, 115u8, 117u8, 108u8, 116u8];
    r
}

/// Builds the seeds that locate the record of `ballot_id`.
pub fn locating_seeds(ballot_id: u64) -> (r: Vec<Vec<u8>>)
    ensures
        seed_list(&r) == record_seeds(ballot_id),
{
    let mut r: Vec<Vec<u8>> = Vec::new();
    r.push(label());
    r.push(u64_to_le_bytes(ballot_id));
    r
}

/// Builds the seeds that sign for the record of `ballot_id`, given the nonce
/// that was found when the record was located.
pub fn signing_seeds(ballot_id: u64, bump: u8) -> (r: Vec<Vec<u8>>)
    ensures
        seed_list(&r) == signer_seeds(ballot_id, bump),
{
    let mut r: Vec<Vec<u8>> = locating_seeds(ballot_id);
    let mut nonce: Vec<u8> = Vec::new();
    nonce.push(bump);
    r.push(nonce);
    r
}

/// Finds the location and nonce of the record of `ballot_id` under
/// `program_id`. The signer seeds with that nonce derive to that location.
pub fn locate(program_id: &Address, ballot_id: u64) -> (r: Option<(Address, u8)>)
    ensures
        r is Some <==> located(program_id@, ballot_id) is Some,
        r matches Some((address, bump)) ==> {
            &&& located(program_id@, ballot_id) == Some((address@, bump))
            &&& signing_identity(program_id@, ballot_id, bump) == Some(address@)
        },
{
    let seeds = locating_seeds(ballot_id);
    find_program_address(&seeds, program_id)
}

/// Derives the identity that `seeds` sign for under `program_id`. Seeds that
/// the derivation refuses sign for nothing.
pub fn derive_identity(seeds: &Vec<Vec<u8>>, program_id: &Address) -> (r: Option<Address>)
    ensures
        r is Some <==> created_address(seed_list(seeds), program_id@) is Some,
        r matches Some(address) ==> created_address(seed_list(seeds), program_id@) == Some(address@),
{
    match create_program_address(seeds, program_id) {
        Ok(address) => Some(address),
        Err(_) => None,
    }
}

/// Different ballots never share their locating seeds.
pub proof fn lemma_record_seeds_injective(a: u64, b: u64)
    requires
        record_seeds(a) == record_seeds(b),
    ensures
        a == b,
{
    lemma_auto_spec_u64_to_from_le_bytes();
    assert(record_seeds(a)[1] == spec_u64_to_le_bytes(a));
    assert(record_seeds(b)[1] == spec_u64_to_le_bytes(b));
}

/// Signer seeds determine the ballot and the nonce they were built from: the
/// seeds of one ballot are never those of another.
pub proof fn lemma_signer_seeds_injective(a: u64, bump_a: u8, b: u64, bump_b: u8)
    requires
        signer_seeds(a, bump_a) == signer_seeds(b, bump_b),
    ensures
        a == b,
        bump_a == bump_b,
{
    lemma_auto_spec_u64_to_from_le_bytes();
    assert(signer_seeds(a, bump_a)[1] == spec_u64_to_le_bytes(a));
    assert(signer_seeds(b, bump_b)[1] == spec_u64_to_le_bytes(b));
    assert(signer_seeds(a, bump_a)[2][0] == bump_a);
    assert(signer_seeds(b, bump_b)[2][0] == bump_b);
}

} // verus!
