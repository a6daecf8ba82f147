//! Account discriminators and lifecycle states.

use vstd::prelude::*;

verus! {

/// Leading type discriminator of every record the protocol owns.
#[derive(Clone, Copy, Debug, PartialEq, Eq, Structural)]
pub enum ShihonAccountType {
    /// Default uninitialized account state.
    Uninitialized,
    /// Content token.
    BcToken,
    /// Content token's inside metadata.
    BcTokenMetadata,
    /// Escrow record between a kicker and a coordinator.
    KickerCoinOwnerRecord,
    /// The ring formed once an escrow is accepted.
    Tanistry,
    /// Per-candidate admission and stake record.
    CandidateLimitRecord,
    /// Pairwise content combination record.
    MixContentRecord,
    /// Holder account for rate options.
    RateOption,
    /// Score put on a mixed content.
    RateOtherRecord,
    /// Secondary-market resale listing.
    OutsideBuyerRecord,
    /// Terminal governance vote.
    CCVoteRecord,
}

impl Default for ShihonAccountType {
    /// A fresh account carries no type yet.
    fn default() -> (r: Self)
        ensures
            r == ShihonAccountType::Uninitialized,
    {
        ShihonAccountType::Uninitialized
    }
}

/// Lifecycle state of a content token.  The state only ever moves forward
/// along [`spec_state_rank`]; `Cancelled` is absorbing from the pre-terminal
/// states.
#[derive(Clone, Copy, Debug, PartialEq, Eq, Structural)]
pub enum BcTokenState {
    /// Blank check before the content reaches the oracle.
    DraftBlankCheck,
    /// Some error happened at creation; unreachable here because failed
    /// instructions roll back completely, kept for wire compatibility.
    ExecutingWithErrors,
    /// Published privately: content recorded, held in the owner's wallet.
    HoldingOnPrivate,
    /// Cast on public ground, waiting for a KickerCoin.
    PublicOnTheGround,
    /// The coordinator approved the KickerCoin; candidates may join.
    EnableToCandidate,
    /// The candidate deadline has come; the ring is set.
    TanistrySetIn,
    /// Enough rounds have run; the terminal vote is open.
    EnableToVoteToCC,
    /// Everything has finished; refunds may be taken.
    EnableToRefund,
    /// Already refunded.
    AlreadyRefunded,
    /// The holder discarded the token; no record may reference it any more.
    Cancelled,
}

impl Default for BcTokenState {
    /// Every content token starts as a draft blank check.
    fn default() -> (r: Self)
        ensures
            r == BcTokenState::DraftBlankCheck,
    {
        BcTokenState::DraftBlankCheck
    }
}

/// Position of a state on the forward-only lifecycle.
pub open spec fn spec_state_rank(s: BcTokenState) -> int {
    match s {
        BcTokenState::DraftBlankCheck => 0,
        BcTokenState::HoldingOnPrivate => 1,
        BcTokenState::PublicOnTheGround => 2,
        BcTokenState::EnableToCandidate => 3,
        BcTokenState::TanistrySetIn => 4,
        BcTokenState::EnableToVoteToCC => 5,
        BcTokenState::EnableToRefund => 6,
        BcTokenState::AlreadyRefunded => 7,
        BcTokenState::Cancelled => 8,
        BcTokenState::ExecutingWithErrors => 9,
    }
}

/// True when a token may step from `a` to `b` without going backward.
pub open spec fn spec_state_moves_forward(a: BcTokenState, b: BcTokenState) -> bool {
    a == b || spec_state_rank(a) < spec_state_rank(b)
}

/// The source of a vote for CC.
#[derive(Clone, Copy, Debug, PartialEq, Eq, Structural)]
pub enum VoteSource {
    /// Which ring the vote targets.
    Transit,
    /// Pull type: whether to push or pull.
    Snapshot,
}

} // verus!
