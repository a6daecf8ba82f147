//! Deterministic record addressing.
//!
//! Every record's storage location is derived from a fixed namespace tag plus
//! the record's natural key.  The seed lists are built and proved injective
//! here and in the record modules; the final hashing step is delegated to the
//! host chain's program-derived-address routine.

use vstd::prelude::*;

verus! {

/// What the host chain's address derivation returns for a program id and a
/// seed list.  The result depends on those bytes alone.
pub uninterp spec fn pda_of(program_id: Seq<u8>, seeds: Seq<Seq<u8>>) -> Option<Seq<u8>>;

/// Relies on `solana_program::pubkey::Pubkey::try_find_program_address`: off
/// chain it derives the program address from the seed bytes and the program
/// id alone, and returns `None` when no bump seed is viable (an overlong seed
/// or too many seeds).
#[verifier::external_body]
pub fn try_find_record_address(program_id: &[u8; 32], seeds: &Vec<Vec<u8>>) -> (r: Option<
    Vec<u8>,
>)
    ensures
        match r {
            Some(a) => a@.len() == 32 && pda_of(program_id@, seeds.deep_view()) == Some(a@),
            None => pda_of(program_id@, seeds.deep_view()) is None,
        },
{
    let pid = solana_program::pubkey::Pubkey::new_from_array(*program_id);
    let seed_refs: Vec<&[u8]> = seeds.iter().map(|s| s.as_slice()).collect();
    solana_program::pubkey::Pubkey::try_find_program_address(&seed_refs, &pid)
        .map(|(address, _bump)| address.to_bytes().to_vec())
}

/// Law: address derivation is pure and deterministic — identical inputs
/// always derive the identical location.
pub proof fn lemma_address_derivation_deterministic(
    pid1: Seq<u8>,
    seeds1: Seq<Seq<u8>>,
    pid2: Seq<u8>,
    seeds2: Seq<Seq<u8>>,
)
    requires
        pid1 == pid2,
        seeds1 == seeds2,
    ensures
        pda_of(pid1, seeds1) == pda_of(pid2, seeds2),
{
}

/// Namespace tag of every protocol record: the bytes of `shihon`.
pub open spec fn spec_program_authority_seed() -> Seq<u8> {
    seq![115u8, 104u8, 105u8, 104u8, 111u8, 110u8]
}

/// Builds the namespace tag.
pub fn program_authority_seed() -> (r: Vec<u8>)
    ensures
        r@ == spec_program_authority_seed(),
{
    let r: Vec<u8> = vec![115u8, 104u8, 105u8, 104u8, 111u8, 110u8];
    assert(r@ =~= spec_program_authority_seed());
    r
}

/// Seed bytes of a participant or mint identity: its little-endian encoding.
pub open spec fn spec_id_seed(id: u64) -> Seq<u8> {
    vstd::bytes::spec_u64_to_le_bytes(id)
}

/// Builds the seed bytes of an identity.
pub fn id_seed(id: u64) -> (r: Vec<u8>)
    ensures
        r@ == spec_id_seed(id),
{
    vstd::bytes::u64_to_le_bytes(id)
}

/// Law: distinct identities have distinct seed bytes.
pub proof fn lemma_id_seed_injective(a: u64, b: u64)
    requires
        a != b,
    ensures
        spec_id_seed(a) != spec_id_seed(b),
{
    vstd::bytes::lemma_auto_spec_u64_to_from_le_bytes();
}

} // verus!
