//! Content token registry: the `BcToken` record and its addressing.

use crate::addresses::pda_of;
use crate::addresses::spec_id_seed;
use crate::addresses::spec_program_authority_seed;
use crate::addresses::id_seed;
use crate::addresses::program_authority_seed;
use crate::addresses::try_find_record_address;
use crate::enums::BcTokenState;
use crate::enums::ShihonAccountType;
use crate::error::ShihonError;
use crate::bc_token_metadata::BcTokenMetadata;
use vstd::prelude::*;
use vstd::string::StringSliceAdditionalSpecFns;
use vstd::slice::slice_to_vec;

verus! {

/// A content-bearing stake wrapper progressing through a fixed lifecycle.
#[derive(Debug)]
pub struct BcToken {
    /// Account type discriminator.
    pub account_type: ShihonAccountType,
    /// The owner who drafted the token.
    pub bc_token_owner_pubkey: u64,
    /// Amount of coin deposited as self rating.
    pub amount_of_coin: u64,
    /// Token issue time.
    pub issue_at: i64,
    /// Optional authority allowed to act besides the owner.
    pub authority: Option<u64>,
    /// Token name; the registry key.
    pub name: String,
    /// Token mint.
    pub bc_token_mint: u64,
    /// Lifecycle state; moves forward only.
    pub bc_token_state: BcTokenState,
    /// Metadata attached at publication.
    pub config: BcTokenMetadata,
}

impl BcToken {
    /// Shape every registry entry keeps: its own discriminator and a
    /// non-empty name.
    pub open spec fn wf(self) -> bool {
        &&& self.account_type == ShihonAccountType::BcToken
        &&& self.name@.len() > 0
    }

    /// A token account is initialized once it carries its own discriminator.
    pub fn is_initialized(&self) -> (r: bool)
        ensures
            r == (self.account_type == ShihonAccountType::BcToken),
    {
        self.account_type == ShihonAccountType::BcToken
    }

    /// Checks the given mint is the mint this token was created with.
    pub fn assert_is_valid_bc_token_mint(&self, bc_token_mint: u64) -> (r: Result<
        (),
        ShihonError,
    >)
        ensures
            r is Ok <==> bc_token_mint == self.bc_token_mint,
            r is Err ==> r == Err::<(), ShihonError>(ShihonError::InvalidBcTokenMint),
    {
        if self.bc_token_mint == bc_token_mint {
            Ok(())
        } else {
            Err(ShihonError::InvalidBcTokenMint)
        }
    }

    /// True when the signer may act on this token: the owner always may, a
    /// recorded authority may as well.
    pub open spec fn spec_authorized(self, signer: u64) -> bool {
        signer == self.bc_token_owner_pubkey || self.authority == Some(signer)
    }

    /// Checks the signer is the owner or the recorded authority.
    pub fn assert_authorized(&self, signer: u64) -> (r: Result<(), ShihonError>)
        ensures
            r is Ok <==> self.spec_authorized(signer),
            r is Err ==> r == Err::<(), ShihonError>(ShihonError::InvalidAuthorityForBcToken),
    {
        if signer == self.bc_token_owner_pubkey {
            return Ok(());
        }
        match self.authority {
            Some(a) => {
                if a == signer {
                    Ok(())
                } else {
                    Err(ShihonError::InvalidAuthorityForBcToken)
                }
            },
            None => Err(ShihonError::InvalidAuthorityForBcToken),
        }
    }
}

/// The candidate's recorded self rating: the coin deposited on the token.
pub fn get_self_rate_value(token: &BcToken) -> (r: u64)
    ensures
        r == token.amount_of_coin,
{
    token.amount_of_coin
}

/// The seed list of a content token: the namespace tag and the name bytes.
pub open spec fn spec_bc_token_address_seeds(name: Seq<char>) -> Seq<Seq<u8>> {
    seq![spec_program_authority_seed(), vstd::utf8::encode_utf8(name)]
}

/// Returns content token seeds.
pub fn get_bc_token_address_seeds(name: &str) -> (r: Vec<Vec<u8>>)
    ensures
        r.deep_view() == spec_bc_token_address_seeds(name@),
{
    let tag = program_authority_seed();
    let name_bytes: Vec<u8> = slice_to_vec(name.as_bytes());
    let r: Vec<Vec<u8>> = vec![tag, name_bytes];
    assert(r.deep_view() =~~= spec_bc_token_address_seeds(name@));
    r
}

/// Returns the content token address.
pub fn get_bc_token_address(program_id: &[u8; 32], name: &str) -> (r: Option<Vec<u8>>)
    ensures
        match r {
            Some(a) => Some(a@) == pda_of(program_id@, spec_bc_token_address_seeds(name@)),
            None => pda_of(program_id@, spec_bc_token_address_seeds(name@)) is None,
        },
{
    let seeds = get_bc_token_address_seeds(name);
    try_find_record_address(program_id, &seeds)
}

/// Law: distinct token names build distinct seed lists, so the registry can
/// never derive one location for two tokens.
pub proof fn lemma_bc_token_seeds_injective(n1: Seq<char>, n2: Seq<char>)
    requires
        n1 != n2,
    ensures
        spec_bc_token_address_seeds(n1) != spec_bc_token_address_seeds(n2),
{
    if spec_bc_token_address_seeds(n1) == spec_bc_token_address_seeds(n2) {
        assert(spec_bc_token_address_seeds(n1)[1] == vstd::utf8::encode_utf8(n1));
        assert(spec_bc_token_address_seeds(n2)[1] == vstd::utf8::encode_utf8(n2));
        vstd::utf8::encode_utf8_decode_utf8(n1);
        vstd::utf8::encode_utf8_decode_utf8(n2);
    }
}

/// The seed list of a token's holding account: tag, name bytes and mint.
pub open spec fn spec_bc_token_holding_address_seeds(name: Seq<char>, mint: u64) -> Seq<
    Seq<u8>,
> {
    seq![
        spec_program_authority_seed(),
        vstd::utf8::encode_utf8(name),
        spec_id_seed(mint),
    ]
}

/// Returns the holding account seeds of a token and mint.
pub fn get_bc_token_holding_address_seeds(name: &str, bc_token_mint: u64) -> (r: Vec<
    Vec<u8>,
>)
    ensures
        r.deep_view() == spec_bc_token_holding_address_seeds(name@, bc_token_mint),
{
    let tag = program_authority_seed();
    let name_bytes: Vec<u8> = slice_to_vec(name.as_bytes());
    let mint_bytes = id_seed(bc_token_mint);
    let r: Vec<Vec<u8>> = vec![tag, name_bytes, mint_bytes];
    assert(r.deep_view() =~~= spec_bc_token_holding_address_seeds(name@, bc_token_mint));
    r
}

/// Returns the holding account address of a token and mint.
pub fn get_bc_token_holding_address(program_id: &[u8; 32], name: &str, bc_token_mint: u64) -> (r:
    Option<Vec<u8>>)
    ensures
        match r {
            Some(a) => Some(a@) == pda_of(
                program_id@,
                spec_bc_token_holding_address_seeds(name@, bc_token_mint),
            ),
            None => pda_of(
                program_id@,
                spec_bc_token_holding_address_seeds(name@, bc_token_mint),
            ) is None,
        },
{
    let seeds = get_bc_token_holding_address_seeds(name, bc_token_mint);
    try_find_record_address(program_id, &seeds)
}

/// Base of a supply fraction: fractions are expressed in one ten-billionths.
pub const SUPPLY_FRACTION_BASE: u64 = 10000000000;

/// The source of max vote weight used for voting.
#[derive(Clone, Copy, Debug, PartialEq, Eq, Structural)]
pub enum MintMaxVoteWeightSource {
    /// Fraction of the governing mint supply, over [`SUPPLY_FRACTION_BASE`].
    SupplyFraction(u64),
    /// Absolute value; not supported by this protocol.
    Absolute(u64),
}

/// Arguments validated when a content token is configured.
#[derive(Clone, Copy, Debug, PartialEq, Eq, Structural)]
pub struct BcTokenConfigArgs {
    /// Whether an authority stays recorded on the token.
    pub use_bc_token_authority: bool,
    /// The max vote weight source for the token's mint.
    pub community_mint_max_vote_weight_source: MintMaxVoteWeightSource,
}

/// Checks the given token config args are correct: only supply fractions
/// between one and the base are accepted.
pub fn assert_valid_bc_token_config_args(config_args: &BcTokenConfigArgs) -> (r: Result<
    (),
    ShihonError,
>)
    ensures
        match r {
            Ok(()) => config_args.community_mint_max_vote_weight_source matches
                MintMaxVoteWeightSource::SupplyFraction(f) && 1 <= f <= SUPPLY_FRACTION_BASE,
            Err(e) => match config_args.community_mint_max_vote_weight_source {
                MintMaxVoteWeightSource::SupplyFraction(f) => (f < 1 || f > SUPPLY_FRACTION_BASE)
                    && e == ShihonError::InvalidMaxVoteWeightSupplyFraction,
                MintMaxVoteWeightSource::Absolute(_) => e
                    == ShihonError::MintMaxVoteWeightSourceNotSupported,
            },
        },
{
    match config_args.community_mint_max_vote_weight_source {
        MintMaxVoteWeightSource::SupplyFraction(fraction) => {
            if 1 <= fraction && fraction <= SUPPLY_FRACTION_BASE {
                Ok(())
            } else {
                Err(ShihonError::InvalidMaxVoteWeightSupplyFraction)
            }
        },
        MintMaxVoteWeightSource::Absolute(_) => Err(
            ShihonError::MintMaxVoteWeightSourceNotSupported,
        ),
    }
}

} // verus!
