//! Succession and governance: the terminal `CCVoteRecord`.

use crate::addresses::pda_of;
use crate::addresses::spec_id_seed;
use crate::addresses::spec_program_authority_seed;
use crate::addresses::id_seed;
use crate::addresses::program_authority_seed;
use crate::addresses::try_find_record_address;
use crate::enums::ShihonAccountType;
use crate::error::ShihonError;
use vstd::prelude::*;

verus! {

/// One ranked alternative of a pull vote.
#[derive(Clone, Copy, Debug, PartialEq, Eq, Structural)]
pub struct CCVoteChoice {
    /// The challenger ring.
    pub challenger_ring: u64,
    /// Which ring the challenge should be redirected to, if any.
    pub target_ring: Option<u64>,
}

/// A voter's terminal vote: pull names ranked alternative rings, push
/// abstains from redirecting the challenge.
#[derive(Debug)]
pub enum Vote {
    /// Pull the challenge toward the ranked alternatives.
    Pull(Vec<CCVoteChoice>),
    /// Push: leave the challenge where it is.
    Push,
}

/// One voter's vote in a Tanistry's terminal epoch: at most one per voter,
/// with the weight fixed at cast time.  How the cast votes combine into a
/// final challenge outcome is a policy of its own and deliberately not part
/// of this record.
#[derive(Debug)]
pub struct CCVoteRecord {
    /// Account type discriminator.
    pub account_type: ShihonAccountType,
    /// The voter who cast this vote.
    pub governing_token_owner: u64,
    /// When the vote was counted.
    pub counting_time: u64,
    /// Whether the vote was relinquished by the voter.
    pub is_relinquished: bool,
    /// The voter's weight, fixed at cast time.
    pub voter_weight: u64,
    /// The vote itself.
    pub vote: Vote,
}

impl CCVoteRecord {
    /// Shape every vote record keeps: its own discriminator.
    pub open spec fn wf(self) -> bool {
        self.account_type == ShihonAccountType::CCVoteRecord
    }

    /// A vote record is initialized once it carries its own discriminator.
    pub fn is_initialized(&self) -> (r: bool)
        ensures
            r == (self.account_type == ShihonAccountType::CCVoteRecord),
    {
        self.account_type == ShihonAccountType::CCVoteRecord
    }

    /// Checks the vote can be relinquished: only once.
    pub fn assert_can_relinquish_vote(&self) -> (r: Result<(), ShihonError>)
        ensures
            r is Ok <==> !self.is_relinquished,
            r is Err ==> r == Err::<(), ShihonError>(ShihonError::VoteAlreadyRelinquished),
    {
        if self.is_relinquished {
            Err(ShihonError::VoteAlreadyRelinquished)
        } else {
            Ok(())
        }
    }
}

/// The seed list of a vote record: tag, target ring and voter record.
pub open spec fn spec_cc_vote_record_address_seeds(
    target_ring: u64,
    token_owner_record: u64,
) -> Seq<Seq<u8>> {
    seq![
        spec_program_authority_seed(),
        spec_id_seed(target_ring),
        spec_id_seed(token_owner_record),
    ]
}

/// Returns vote record seeds.
pub fn get_cc_vote_record_address_seeds(target_ring: u64, token_owner_record: u64) -> (r: Vec<
    Vec<u8>,
>)
    ensures
        r.deep_view() == spec_cc_vote_record_address_seeds(target_ring, token_owner_record),
{
    let tag = program_authority_seed();
    let ring_bytes = id_seed(target_ring);
    let owner_bytes = id_seed(token_owner_record);
    let r: Vec<Vec<u8>> = vec![tag, ring_bytes, owner_bytes];
    assert(r.deep_view() =~~= spec_cc_vote_record_address_seeds(
        target_ring,
        token_owner_record,
    ));
    r
}

/// Returns the vote record address.
pub fn get_cc_vote_record_address(
    program_id: &[u8; 32],
    target_ring: u64,
    token_owner_record: u64,
) -> (r: Option<Vec<u8>>)
    ensures
        match r {
            Some(a) => Some(a@) == pda_of(
                program_id@,
                spec_cc_vote_record_address_seeds(target_ring, token_owner_record),
            ),
            None => pda_of(
                program_id@,
                spec_cc_vote_record_address_seeds(target_ring, token_owner_record),
            ) is None,
        },
{
    let seeds = get_cc_vote_record_address_seeds(target_ring, token_owner_record);
    try_find_record_address(program_id, &seeds)
}

/// Law: distinct (target ring, voter record) pairs build distinct seed
/// lists, so each voter gets one location per epoch.
pub proof fn lemma_cc_vote_record_seeds_injective(t1: u64, o1: u64, t2: u64, o2: u64)
    requires
        (t1, o1) != (t2, o2),
    ensures
        spec_cc_vote_record_address_seeds(t1, o1) != spec_cc_vote_record_address_seeds(t2, o2),
{
    vstd::bytes::lemma_auto_spec_u64_to_from_le_bytes();
    if spec_cc_vote_record_address_seeds(t1, o1) == spec_cc_vote_record_address_seeds(t2, o2) {
        assert(spec_cc_vote_record_address_seeds(t1, o1)[1] == spec_id_seed(t1));
        assert(spec_cc_vote_record_address_seeds(t1, o1)[2] == spec_id_seed(o1));
    }
}

} // verus!
