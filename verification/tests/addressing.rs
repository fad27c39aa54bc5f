use gov_v1::address::derive_identity;
use gov_v1::address::label;
use gov_v1::address::locate;
use gov_v1::address::locating_seeds;
use gov_v1::address::same_address;
use gov_v1::address::signing_seeds;
use gov_v1::address::Address;
use gov_v1::authority::authorizes;
use gov_v1::authority::Authority;
use gov_v1::store::ConsensusStore;
use gov_v1::store::Handle;

const ZEROS: Address = [0u8; 32];
const SEVENS: Address = [7u8; 32];

const AT_42_UNDER_ZEROS: Address = [
    189, 173, 46, 231, 234, 244, 191, 115, 127, 61, 225, 49, 12, 226, 92, 69, 131, 3, 137, 131, 69,
    138, 130, 126, 48, 148, 136, 96, 149, 135, 92, 22,
];

const AT_42_UNDER_SEVENS: Address = [
    21, 184, 226, 201, 80, 210, 149, 109, 107, 187, 135, 122, 92, 168, 46, 10, 209, 164, 164, 168,
    254, 82, 12, 196, 199, 214, 234, 125, 246, 148, 7, 36,
];

const AT_MAX_UNDER_SEVENS: Address = [
    58, 148, 97, 209, 179, 242, 97, 225, 241, 135, 165, 33, 77, 71, 204, 154, 22, 36, 138, 254,
    153, 28, 98, 133, 62, 130, 165, 40, 235, 253, 116, 79,
];

#[test]
fn label_is_the_ascii_name() {
    assert_eq!(label(), b"ConsensusResult".to_vec());
    assert_eq!(label().len(), 15);
}

#[test]
fn locating_seeds_are_label_then_little_endian_id() {
    let seeds = locating_seeds(42);
    assert_eq!(seeds.len(), 2);
    assert_eq!(seeds[0], b"ConsensusResult".to_vec());
    assert_eq!(seeds[1], vec![42u8, 0, 0, 0, 0, 0, 0, 0]);
}

#[test]
fn locating_seeds_of_a_wide_id() {
    let seeds = locating_seeds(0x0102_0304_0506_0708);
    assert_eq!(seeds[1], vec![8u8, 7, 6, 5, 4, 3, 2, 1]);
    assert_eq!(locating_seeds(u64::MAX)[1], vec![255u8; 8]);
    assert_eq!(locating_seeds(0)[1], vec![0u8; 8]);
}

#[test]
fn signing_seeds_end_with_the_nonce() {
    let seeds = signing_seeds(1000, 248);
    assert_eq!(seeds.len(), 3);
    assert_eq!(seeds[0], b"ConsensusResult".to_vec());
    assert_eq!(seeds[1], vec![232u8, 3, 0, 0, 0, 0, 0, 0]);
    assert_eq!(seeds[2], vec![248u8]);
}

#[test]
fn signing_seeds_differ_between_ballots() {
    assert_ne!(signing_seeds(1, 255), signing_seeds(2, 255));
    assert_ne!(signing_seeds(1, 255), signing_seeds(1, 254));
    assert_ne!(signing_seeds(1, 255), signing_seeds(256, 255));
}

#[test]
fn locate_gives_the_derived_address() {
    assert_eq!(locate(&SEVENS, 42), Some((AT_42_UNDER_SEVENS, 255)));
    assert_eq!(locate(&SEVENS, u64::MAX), Some((AT_MAX_UNDER_SEVENS, 250)));
}

#[test]
fn locate_skips_nonces_that_the_derivation_refuses() {
    assert_eq!(locate(&ZEROS, 42), Some((AT_42_UNDER_ZEROS, 248)));
}

#[test]
fn locate_is_reproducible() {
    assert_eq!(locate(&SEVENS, 7), locate(&SEVENS, 7));
    assert_ne!(locate(&SEVENS, 7), locate(&SEVENS, 8));
    assert_ne!(locate(&SEVENS, 7), locate(&ZEROS, 7));
}

#[test]
fn store_locates_under_its_own_program() {
    let store = ConsensusStore::new(ZEROS);
    assert_eq!(store.program(), ZEROS);
    assert_eq!(store.locate(42), Some(Handle { location: AT_42_UNDER_ZEROS, bump: 248 }));
}

#[test]
fn identity_of_the_found_nonce_is_the_location() {
    let seeds = signing_seeds(42, 248);
    assert_eq!(derive_identity(&seeds, &ZEROS), Some(AT_42_UNDER_ZEROS));
    let authority = Authority { ballot_id: 42, bump: 255 };
    assert_eq!(authority.identity(&SEVENS), Some(AT_42_UNDER_SEVENS));
    assert_eq!(authority.seeds(), signing_seeds(42, 255));
}

#[test]
fn identity_is_refused_for_a_nonce_above_the_found_one() {
    let authority = Authority { ballot_id: 42, bump: 255 };
    assert_eq!(authority.identity(&ZEROS), None);
    assert_eq!(derive_identity(&signing_seeds(42, 249), &ZEROS), None);
}

#[test]
fn identity_is_refused_for_seeds_that_are_too_long() {
    let seeds = vec![vec![1u8; 33]];
    assert_eq!(derive_identity(&seeds, &ZEROS), None);
    let many = vec![vec![1u8]; 17];
    assert_eq!(derive_identity(&many, &ZEROS), None);
}

#[test]
fn authority_takes_its_nonce_from_the_handle() {
    let handle = Handle { location: AT_42_UNDER_ZEROS, bump: 248 };
    let authority = Authority::derive(42, &handle);
    assert_eq!(authority, Authority { ballot_id: 42, bump: 248 });
    assert_eq!(authority.identity(&ZEROS), Some(handle.location));
}

#[test]
fn authorizes_only_the_own_location() {
    let seeds = signing_seeds(42, 248);
    assert!(authorizes(&seeds, &ZEROS, &AT_42_UNDER_ZEROS));
    assert!(!authorizes(&seeds, &ZEROS, &AT_42_UNDER_SEVENS));
    assert!(!authorizes(&seeds, &SEVENS, &AT_42_UNDER_ZEROS));
}

#[test]
fn authorizes_refuses_a_wrong_nonce() {
    assert!(!authorizes(&signing_seeds(42, 255), &ZEROS, &AT_42_UNDER_ZEROS));
    assert!(!authorizes(&signing_seeds(42, 247), &ZEROS, &AT_42_UNDER_ZEROS));
    assert!(!authorizes(&signing_seeds(42, 254), &SEVENS, &AT_42_UNDER_SEVENS));
}

#[test]
fn authorizes_refuses_another_ballot() {
    let (at_43, bump_43) = locate(&SEVENS, 43).unwrap();
    let seeds_42 = signing_seeds(42, 255);
    let seeds_43 = signing_seeds(43, bump_43);
    assert!(authorizes(&seeds_43, &SEVENS, &at_43));
    assert!(!authorizes(&seeds_42, &SEVENS, &at_43));
    assert!(!authorizes(&seeds_43, &SEVENS, &AT_42_UNDER_SEVENS));
}

#[test]
fn same_address_compares_every_byte() {
    let mut other = SEVENS;
    assert!(same_address(&SEVENS, &other));
    other[31] = 8;
    assert!(!same_address(&SEVENS, &other));
    other[31] = 7;
    other[0] = 0;
    assert!(!same_address(&SEVENS, &other));
    assert!(!same_address(&SEVENS, &ZEROS));
}
