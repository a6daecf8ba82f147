//! Admission ledger: the per-candidate `CandidateLimitRecord`.

use crate::addresses::pda_of;
use crate::addresses::spec_id_seed;
use crate::addresses::spec_program_authority_seed;
use crate::addresses::id_seed;
use crate::addresses::program_authority_seed;
use crate::addresses::try_find_record_address;
use crate::enums::ShihonAccountType;
use crate::error::ShihonError;
use vstd::prelude::*;

verus! {

/// Stake accounting of one admitted candidate, bounded by the ring-wide
/// limit bar.  The sequence index hands each candidate a unique number, like
/// the numbering machine at a bakery's entrance; indices never repeat within
/// one Tanistry.
#[derive(Debug)]
pub struct CandidateLimitRecord {
    /// Account type discriminator.
    pub account_type: ShihonAccountType,
    /// The Tanistry this record belongs to.
    pub belonging_tanistry: u64,
    /// The candidate's sequence number within the Tanistry.
    pub number_of_candidate_count: u32,
    /// Candidate token mint the record holds deposit for.
    pub candidate_token_mint: u64,
    /// The owner of the deposited candidate tokens; only this identity can
    /// authorize a change of the stake.
    pub candidate_token_owner: u64,
    /// How much the candidate deposited as self rating.
    pub candidate_token_deposit_amount: u64,
}

impl CandidateLimitRecord {
    /// Shape every admission record keeps: its own discriminator.
    pub open spec fn wf(self) -> bool {
        self.account_type == ShihonAccountType::CandidateLimitRecord
    }

    /// An admission record is initialized once it carries its own
    /// discriminator.
    pub fn is_initialized(&self) -> (r: bool)
        ensures
            r == (self.account_type == ShihonAccountType::CandidateLimitRecord),
    {
        self.account_type == ShihonAccountType::CandidateLimitRecord
    }

    /// Checks the transaction is signed by the candidate who deposited.
    pub fn assert_token_owner_or_delegate_is_signer(&self, signer: u64) -> (r: Result<
        (),
        ShihonError,
    >)
        ensures
            r is Ok <==> signer == self.candidate_token_owner,
            r is Err ==> r == Err::<(), ShihonError>(ShihonError::CandidateTokenOwnerMustSign),
    {
        if signer == self.candidate_token_owner {
            Ok(())
        } else {
            Err(ShihonError::CandidateTokenOwnerMustSign)
        }
    }
}

/// The seed list of an admission record: tag, Tanistry, mint and owner.
pub open spec fn spec_candidate_limit_record_address_seeds(
    tanistry: u64,
    candidate_token_mint: u64,
    candidate_token_owner: u64,
) -> Seq<Seq<u8>> {
    seq![
        spec_program_authority_seed(),
        spec_id_seed(tanistry),
        spec_id_seed(candidate_token_mint),
        spec_id_seed(candidate_token_owner),
    ]
}

/// Returns admission record seeds.
pub fn get_candidate_limit_record_address_seeds(
    tanistry: u64,
    candidate_token_mint: u64,
    candidate_token_owner: u64,
) -> (r: Vec<Vec<u8>>)
    ensures
        r.deep_view() == spec_candidate_limit_record_address_seeds(
            tanistry,
            candidate_token_mint,
            candidate_token_owner,
        ),
{
    let tag = program_authority_seed();
    let tanistry_bytes = id_seed(tanistry);
    let mint_bytes = id_seed(candidate_token_mint);
    let owner_bytes = id_seed(candidate_token_owner);
    let r: Vec<Vec<u8>> = vec![tag, tanistry_bytes, mint_bytes, owner_bytes];
    assert(r.deep_view() =~~= spec_candidate_limit_record_address_seeds(
        tanistry,
        candidate_token_mint,
        candidate_token_owner,
    ));
    r
}

/// Returns the admission record address.
pub fn get_candidate_limit_record_address(
    program_id: &[u8; 32],
    tanistry: u64,
    candidate_token_mint: u64,
    candidate_token_owner: u64,
) -> (r: Option<Vec<u8>>)
    ensures
        match r {
            Some(a) => Some(a@) == pda_of(
                program_id@,
                spec_candidate_limit_record_address_seeds(
                    tanistry,
                    candidate_token_mint,
                    candidate_token_owner,
                ),
            ),
            None => pda_of(
                program_id@,
                spec_candidate_limit_record_address_seeds(
                    tanistry,
                    candidate_token_mint,
                    candidate_token_owner,
                ),
            ) is None,
        },
{
    let seeds = get_candidate_limit_record_address_seeds(
        tanistry,
        candidate_token_mint,
        candidate_token_owner,
    );
    try_find_record_address(program_id, &seeds)
}

/// Law: distinct (Tanistry, mint, owner) triples build distinct seed lists,
/// so exactly one location exists per admitted candidate.
pub proof fn lemma_candidate_limit_record_seeds_injective(
    t1: u64,
    m1: u64,
    o1: u64,
    t2: u64,
    m2: u64,
    o2: u64,
)
    requires
        (t1, m1, o1) != (t2, m2, o2),
    ensures
        spec_candidate_limit_record_address_seeds(t1, m1, o1)
            != spec_candidate_limit_record_address_seeds(t2, m2, o2),
{
    vstd::bytes::lemma_auto_spec_u64_to_from_le_bytes();
    if spec_candidate_limit_record_address_seeds(t1, m1, o1)
        == spec_candidate_limit_record_address_seeds(t2, m2, o2) {
        assert(spec_candidate_limit_record_address_seeds(t1, m1, o1)[1] == spec_id_seed(t1));
        assert(spec_candidate_limit_record_address_seeds(t1, m1, o1)[2] == spec_id_seed(m1));
        assert(spec_candidate_limit_record_address_seeds(t1, m1, o1)[3] == spec_id_seed(o1));
    }
}

} // verus!
