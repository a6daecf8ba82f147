//! Protocol errors.
//!
//! Every failing instruction surfaces exactly one of these synchronously and
//! leaves the ledger untouched (with the single documented exception of an
//! expired resale listing, which is closed the moment its expiry is observed).

use vstd::prelude::*;

verus! {

/// Outcome of a rejected instruction, grouped by kind: malformed request,
/// authorization failure, state violation, arithmetic overflow and expired
/// deadline.
#[derive(Clone, Copy, Debug, PartialEq, Eq, Structural)]
pub enum ShihonError {
    /// Unknown opcode or a request missing its required signers.
    InvalidInstruction,
    /// Rent bookkeeping stays with the host runtime; the core never raises
    /// this, the variant is kept for wire compatibility.
    NotRentExempt,
    /// A buy must match the listed amount exactly; partial fills are refused.
    ExpectedAmountMismatch,
    /// Stake or rating accumulation would overflow.
    AmountOverflow,
    /// A content token name must not be empty.
    InvalidBcTokenName,
    /// A content token with this name already lives in the registry.
    BcTokenAlreadyExists,
    /// No content token with this name exists.
    BcTokenNotFound,
    /// The signer is neither the owner nor the recorded authority.
    InvalidAuthorityForBcToken,
    /// The instruction is illegal for the token's current lifecycle state.
    InvalidBcTokenState,
    /// The supplied mint is not the token's recorded mint.
    InvalidBcTokenMint,
    /// A live escrow record for this (kicker, coordinator) pair already exists.
    KickerCoinOwnerRecordAlreadyExists,
    /// No escrow record for this (kicker, coordinator) pair exists.
    KickerCoinOwnerRecordNotFound,
    /// The escrow was already accepted; it can be resolved only once.
    KickerCoinAlreadyKickedOff,
    /// Only the kicker who escrowed the KickerCoin may sign here.
    KickerCoinHolderMustSign,
    /// Only the named coordinator may resolve the escrow or crown a successor.
    CoordinatorMustSign,
    /// No Tanistry with this index exists.
    TanistryNotFound,
    /// The Tanistry is sealed, or not in the phase this instruction needs.
    InvalidTanistryState,
    /// Deposits and resale listings must carry a positive amount.
    InvalidDepositAmount,
    /// The candidate already holds an admission record in this Tanistry.
    CandidateAlreadyAdmitted,
    /// Admitting or bumping this stake would push the ring past its limit bar.
    CandidateLimitExceeded,
    /// The signer holds no admission record in this Tanistry.
    CandidateLimitRecordNotFound,
    /// Only the candidate who deposited the stake may change or sell it.
    CandidateTokenOwnerMustSign,
    /// The two signers are not this round's deterministic pair, or a signer
    /// already sits in an unresolved pair this round.
    InvalidMixPair,
    /// An unresolved mix record for this pair and round already exists.
    MixContentRecordAlreadyExists,
    /// No mix record for this pair exists.
    MixContentRecordNotFound,
    /// The mix record was already rated; a mix resolves exactly once.
    MixContentAlreadyResolved,
    /// Only the rater named by the mix record may rate it.
    RaterMustSign,
    /// The rating exceeds the per-round ceiling.
    RatingAboveCeiling,
    /// The seller already has an open resale listing in this Tanistry.
    OutsideBuyerRecordAlreadyExists,
    /// No open resale listing by this seller exists.
    OutsideBuyerRecordNotFound,
    /// The resale deadline has passed; the listing lapses unsold.
    DeadlineExpired,
    /// The seller's rated surplus does not cover the amount offered for sale.
    NoExceededRateToSell,
    /// The stake cannot drop below what an open resale listing commits.
    StakeCommittedToSale,
    /// The round counter has not reached the crowning minimum.
    NotEnoughRounds,
    /// The proposed crown is not an admitted candidate of this Tanistry.
    InvalidCrownCandidate,
    /// The round counter has not reached the vote-eligibility threshold.
    VotingNotEnabled,
    /// The voter already cast a vote in this Tanistry's epoch.
    VoteAlreadyCast,
    /// The vote was already relinquished.
    VoteAlreadyRelinquished,
    /// The option list does not fit the vote type.
    InvalidProposalOptions,
    /// A supply fraction must lie between one and the fraction base.
    InvalidMaxVoteWeightSupplyFraction,
    /// Absolute max vote weight sources are not supported.
    MintMaxVoteWeightSourceNotSupported,
    /// Only yes-vote thresholds are supported.
    VoteThresholdPercentageTypeNotSupported,
}

} // verus!
