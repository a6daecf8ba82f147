//! Rate engine: the `RateOtherRecord` scoring a mixed content.

use crate::addresses::pda_of;
use crate::addresses::spec_id_seed;
use crate::addresses::spec_program_authority_seed;
use crate::addresses::id_seed;
use crate::addresses::program_authority_seed;
use crate::addresses::try_find_record_address;
use crate::enums::ShihonAccountType;
use vstd::prelude::*;

verus! {

/// The single score put on one mix record, immutable once written.  The
/// rating amount is bounded by the per-round ceiling at creation.
#[derive(Debug)]
pub struct RateOtherRecord {
    /// Account type discriminator.
    pub account_type: ShihonAccountType,
    /// Index of the mix content record this rating resolved.
    pub mix_content_record: u64,
    /// The rating amount.
    pub rate_amount: u64,
    /// When the rating was cast.
    pub rating_time: Option<i64>,
}

impl RateOtherRecord {
    /// Shape every rating record keeps: its own discriminator.
    pub open spec fn wf(self) -> bool {
        self.account_type == ShihonAccountType::RateOtherRecord
    }

    /// A rating record is initialized once it carries its own discriminator.
    pub fn is_initialized(&self) -> (r: bool)
        ensures
            r == (self.account_type == ShihonAccountType::RateOtherRecord),
    {
        self.account_type == ShihonAccountType::RateOtherRecord
    }
}

/// The seed list of a rating record: tag, rater and rated content.
pub open spec fn spec_rate_other_record_address_seeds(
    rater_pubkey: u64,
    rated_content: u64,
) -> Seq<Seq<u8>> {
    seq![
        spec_program_authority_seed(),
        spec_id_seed(rater_pubkey),
        spec_id_seed(rated_content),
    ]
}

/// Returns rating record seeds.
pub fn get_rate_other_record_address_seeds(rater_pubkey: u64, rated_content: u64) -> (r: Vec<
    Vec<u8>,
>)
    ensures
        r.deep_view() == spec_rate_other_record_address_seeds(rater_pubkey, rated_content),
{
    let tag = program_authority_seed();
    let rater_bytes = id_seed(rater_pubkey);
    let content_bytes = id_seed(rated_content);
    let r: Vec<Vec<u8>> = vec![tag, rater_bytes, content_bytes];
    assert(r.deep_view() =~~= spec_rate_other_record_address_seeds(rater_pubkey, rated_content));
    r
}

/// Returns the rating record address.
pub fn get_rate_other_record_address(
    program_id: &[u8; 32],
    rater_pubkey: u64,
    rated_content: u64,
) -> (r: Option<Vec<u8>>)
    ensures
        match r {
            Some(a) => Some(a@) == pda_of(
                program_id@,
                spec_rate_other_record_address_seeds(rater_pubkey, rated_content),
            ),
            None => pda_of(
                program_id@,
                spec_rate_other_record_address_seeds(rater_pubkey, rated_content),
            ) is None,
        },
{
    let seeds = get_rate_other_record_address_seeds(rater_pubkey, rated_content);
    try_find_record_address(program_id, &seeds)
}

/// Law: distinct (rater, rated content) pairs build distinct seed lists.
pub proof fn lemma_rate_other_record_seeds_injective(r1: u64, c1: u64, r2: u64, c2: u64)
    requires
        (r1, c1) != (r2, c2),
    ensures
        spec_rate_other_record_address_seeds(r1, c1) != spec_rate_other_record_address_seeds(
            r2,
            c2,
        ),
{
    vstd::bytes::lemma_auto_spec_u64_to_from_le_bytes();
    if spec_rate_other_record_address_seeds(r1, c1) == spec_rate_other_record_address_seeds(
        r2,
        c2,
    ) {
        assert(spec_rate_other_record_address_seeds(r1, c1)[1] == spec_id_seed(r1));
        assert(spec_rate_other_record_address_seeds(r1, c1)[2] == spec_id_seed(c1));
    }
}

} // verus!
