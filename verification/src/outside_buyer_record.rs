//! Secondary market: the `OutsideBuyerRecord` resale listing.

use crate::addresses::pda_of;
use crate::addresses::spec_id_seed;
use crate::addresses::spec_program_authority_seed;
use crate::addresses::id_seed;
use crate::addresses::program_authority_seed;
use crate::addresses::try_find_record_address;
use crate::enums::ShihonAccountType;
use vstd::prelude::*;

verus! {

/// An escrowed resale of stake that exceeded the rating cap: listed by an
/// admitted seller with a deadline, consumed by a buy that matches the
/// amount exactly, or lapsed once the deadline is observed to have passed.
#[derive(Debug)]
pub struct OutsideBuyerRecord {
    /// Account type discriminator.
    pub account_type: ShihonAccountType,
    /// The Tanistry the listing belongs to.
    pub tanistry: u64,
    /// The admitted candidate selling surplus stake.
    pub seller: u64,
    /// Buyer token mint the listing is denominated in.
    pub outside_buyer_token_mint: u64,
    /// The outside party who bought the listing, once it is consumed.
    pub outside_buyer_token_owner: Option<u64>,
    /// The listed amount; always positive, matched exactly by a buy.
    pub outside_buyer_token_deposit_amount: u64,
    /// The deadline after which the listing lapses unsold.
    pub deadline: i64,
    /// True until the listing is bought or observed expired.
    pub is_open: bool,
}

impl OutsideBuyerRecord {
    /// Shape every listing keeps: its own discriminator, a positive amount,
    /// and a buyer recorded exactly on the closed listings that were bought.
    pub open spec fn wf(self) -> bool {
        &&& self.account_type == ShihonAccountType::OutsideBuyerRecord
        &&& self.outside_buyer_token_deposit_amount > 0
        &&& self.is_open ==> self.outside_buyer_token_owner is None
    }

    /// A listing is initialized once it carries its own discriminator.
    pub fn is_initialized(&self) -> (r: bool)
        ensures
            r == (self.account_type == ShihonAccountType::OutsideBuyerRecord),
    {
        self.account_type == ShihonAccountType::OutsideBuyerRecord
    }
}

/// The seed list of a listing: tag, seller, mint and Tanistry.
pub open spec fn spec_outside_buyer_token_owner_record_address_seeds(
    rater_pubkey: u64,
    outside_buyer_token_mint: u64,
    tanistry: u64,
) -> Seq<Seq<u8>> {
    seq![
        spec_program_authority_seed(),
        spec_id_seed(rater_pubkey),
        spec_id_seed(outside_buyer_token_mint),
        spec_id_seed(tanistry),
    ]
}

/// Returns listing seeds.
pub fn get_outside_buyer_token_owner_record_address_seeds(
    rater_pubkey: u64,
    outside_buyer_token_mint: u64,
    tanistry: u64,
) -> (r: Vec<Vec<u8>>)
    ensures
        r.deep_view() == spec_outside_buyer_token_owner_record_address_seeds(
            rater_pubkey,
            outside_buyer_token_mint,
            tanistry,
        ),
{
    let tag = program_authority_seed();
    let rater_bytes = id_seed(rater_pubkey);
    let mint_bytes = id_seed(outside_buyer_token_mint);
    let tanistry_bytes = id_seed(tanistry);
    let r: Vec<Vec<u8>> = vec![tag, rater_bytes, mint_bytes, tanistry_bytes];
    assert(r.deep_view() =~~= spec_outside_buyer_token_owner_record_address_seeds(
        rater_pubkey,
        outside_buyer_token_mint,
        tanistry,
    ));
    r
}

/// Returns the listing address.
pub fn get_outside_buyer_token_owner_record_address(
    program_id: &[u8; 32],
    rater_pubkey: u64,
    outside_buyer_token_mint: u64,
    tanistry: u64,
) -> (r: Option<Vec<u8>>)
    ensures
        match r {
            Some(a) => Some(a@) == pda_of(
                program_id@,
                spec_outside_buyer_token_owner_record_address_seeds(
                    rater_pubkey,
                    outside_buyer_token_mint,
                    tanistry,
                ),
            ),
            None => pda_of(
                program_id@,
                spec_outside_buyer_token_owner_record_address_seeds(
                    rater_pubkey,
                    outside_buyer_token_mint,
                    tanistry,
                ),
            ) is None,
        },
{
    let seeds = get_outside_buyer_token_owner_record_address_seeds(
        rater_pubkey,
        outside_buyer_token_mint,
        tanistry,
    );
    try_find_record_address(program_id, &seeds)
}

/// Law: distinct (seller, mint, Tanistry) triples build distinct seed lists.
pub proof fn lemma_outside_buyer_record_seeds_injective(
    r1: u64,
    m1: u64,
    t1: u64,
    r2: u64,
    m2: u64,
    t2: u64,
)
    requires
        (r1, m1, t1) != (r2, m2, t2),
    ensures
        spec_outside_buyer_token_owner_record_address_seeds(r1, m1, t1)
            != spec_outside_buyer_token_owner_record_address_seeds(r2, m2, t2),
{
    vstd::bytes::lemma_auto_spec_u64_to_from_le_bytes();
    if spec_outside_buyer_token_owner_record_address_seeds(r1, m1, t1)
        == spec_outside_buyer_token_owner_record_address_seeds(r2, m2, t2) {
        assert(spec_outside_buyer_token_owner_record_address_seeds(r1, m1, t1)[1]
            == spec_id_seed(r1));
        assert(spec_outside_buyer_token_owner_record_address_seeds(r1, m1, t1)[2]
            == spec_id_seed(m1));
        assert(spec_outside_buyer_token_owner_record_address_seeds(r1, m1, t1)[3]
            == spec_id_seed(t1));
    }
}

} // verus!
