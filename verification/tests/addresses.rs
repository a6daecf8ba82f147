//! Address derivation: purity, determinism and agreement with the chain's
//! own routine.

use shihon::addresses::{id_seed, program_authority_seed, try_find_record_address};
use shihon::bc_token::{get_bc_token_address, get_bc_token_address_seeds};
use shihon::bc_token_metadata::{get_bc_token_metadata_address, get_bc_token_metadata_seeds};
use shihon::candidate_limit_record::get_candidate_limit_record_address;
use shihon::cc_vote_record::get_cc_vote_record_address;
use shihon::kicker_coin_owner_record::get_kicker_coin_owner_record_address;
use shihon::outside_buyer_record::get_outside_buyer_token_owner_record_address;
use shihon::rate_other_record::get_rate_other_record_address;

const PROGRAM_ID: [u8; 32] = [7u8; 32];

#[test]
fn program_authority_seed_is_shihon() {
    assert_eq!(program_authority_seed(), b"shihon".to_vec());
}

#[test]
fn metadata_seeds_carry_the_token_name() {
    assert_eq!(
        get_bc_token_metadata_seeds("alpha"),
        vec![b"metadata".to_vec(), b"alpha".to_vec()]
    );
}

#[test]
fn metadata_addresses_differ_per_token() {
    let a = get_bc_token_metadata_address(&PROGRAM_ID, "alpha").unwrap();
    let b = get_bc_token_metadata_address(&PROGRAM_ID, "beta").unwrap();
    assert_ne!(a, b);
    let again = get_bc_token_metadata_address(&PROGRAM_ID, "alpha").unwrap();
    assert_eq!(a, again);
    // The metadata location never collides with the token's own location.
    let token = get_bc_token_address(&PROGRAM_ID, "alpha").unwrap();
    assert_ne!(a, token);
}

#[test]
fn id_seed_is_little_endian() {
    assert_eq!(id_seed(1), 1u64.to_le_bytes().to_vec());
    assert_eq!(id_seed(0xDEADBEEF), 0xDEADBEEFu64.to_le_bytes().to_vec());
}

#[test]
fn bc_token_seeds_hold_tag_and_name() {
    let seeds = get_bc_token_address_seeds("alpha");
    assert_eq!(seeds, vec![b"shihon".to_vec(), b"alpha".to_vec()]);
}

#[test]
fn identical_inputs_derive_identical_addresses() {
    let a1 = get_bc_token_address(&PROGRAM_ID, "alpha").unwrap();
    let a2 = get_bc_token_address(&PROGRAM_ID, "alpha").unwrap();
    assert_eq!(a1, a2);
    let k1 = get_kicker_coin_owner_record_address(&PROGRAM_ID, 11, 22).unwrap();
    let k2 = get_kicker_coin_owner_record_address(&PROGRAM_ID, 11, 22).unwrap();
    assert_eq!(k1, k2);
}

#[test]
fn different_inputs_derive_different_addresses() {
    let a = get_bc_token_address(&PROGRAM_ID, "alpha").unwrap();
    let b = get_bc_token_address(&PROGRAM_ID, "alphb").unwrap();
    assert_ne!(a, b);
    let k1 = get_kicker_coin_owner_record_address(&PROGRAM_ID, 11, 22).unwrap();
    let k2 = get_kicker_coin_owner_record_address(&PROGRAM_ID, 22, 11).unwrap();
    assert_ne!(k1, k2);
    let c1 = get_candidate_limit_record_address(&PROGRAM_ID, 0, 5, 9).unwrap();
    let c2 = get_candidate_limit_record_address(&PROGRAM_ID, 1, 5, 9).unwrap();
    assert_ne!(c1, c2);
    let r1 = get_rate_other_record_address(&PROGRAM_ID, 3, 4).unwrap();
    let r2 = get_rate_other_record_address(&PROGRAM_ID, 4, 3).unwrap();
    assert_ne!(r1, r2);
    let o1 = get_outside_buyer_token_owner_record_address(&PROGRAM_ID, 1, 2, 3).unwrap();
    let o2 = get_outside_buyer_token_owner_record_address(&PROGRAM_ID, 1, 2, 4).unwrap();
    assert_ne!(o1, o2);
    let v1 = get_cc_vote_record_address(&PROGRAM_ID, 8, 9).unwrap();
    let v2 = get_cc_vote_record_address(&PROGRAM_ID, 9, 9).unwrap();
    assert_ne!(v1, v2);
}

#[test]
fn derivation_agrees_with_the_chain_routine() {
    let lib = get_bc_token_address(&PROGRAM_ID, "alpha").unwrap();
    let pid = solana_program::pubkey::Pubkey::new_from_array(PROGRAM_ID);
    let (expected, _bump) = solana_program::pubkey::Pubkey::try_find_program_address(
        &[b"shihon", b"alpha"],
        &pid,
    )
    .unwrap();
    assert_eq!(lib, expected.to_bytes().to_vec());
}

#[test]
fn wrapper_transforms_its_seed_input() {
    let seeds = vec![b"shihon".to_vec(), b"alpha".to_vec()];
    let derived = try_find_record_address(&PROGRAM_ID, &seeds).unwrap();
    assert_eq!(derived.len(), 32);
    let flat: Vec<u8> = seeds.concat();
    assert_ne!(derived, flat);
    assert_ne!(derived, seeds[0]);
    assert_ne!(derived, seeds[1]);
}

#[test]
fn oversized_seed_yields_no_address() {
    let seeds = vec![vec![0u8; 64]];
    assert!(try_find_record_address(&PROGRAM_ID, &seeds).is_none());
}
