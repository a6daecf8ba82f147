//! The closed instruction set of the protocol, with builder functions.
//!
//! Every instruction names the records it reads or writes by their natural
//! keys — a token by its name, an escrow by its kicker, a ring by its index
//! — because unnamed records can never be touched.

use crate::bc_token_metadata::BcTokenMetadata;
use crate::cc_vote_record::Vote;
use vstd::prelude::*;

verus! {

/// Requests supported by the shihon program, one per transition.
#[derive(Debug)]
pub enum ShihonInstruction {
    /// Draft a blank check: a content token with no content yet.
    DraftBlankCheck {
        /// Token name, the registry key.
        name: String,
        /// Token mint.
        bc_token_mint: u64,
    },
    /// Publish a token: attach metadata and deposit.
    CreateBcToken {
        /// Token name.
        name: String,
        /// The deposit attached as self rating.
        amount: u64,
        /// The metadata from the oracle, with the visibility flag.
        config: BcTokenMetadata,
    },
    /// Discard a token, legal only before it reaches public ground.
    DiscardBcToken {
        /// Token name.
        name: String,
    },
    /// Throw a KickerCoin at a prospective coordinator.
    KickingToCoordinator {
        /// The kicker's token name.
        name: String,
        /// The coordinator kicked at.
        coordinator: u64,
        /// The escrowed amount.
        amount: u64,
    },
    /// Approve a received KickerCoin, opening a ring.
    ApproveKickerCoin {
        /// The kicker whose escrow is approved; the signer is the
        /// coordinator.
        kicker: u64,
        /// The coordinator's input for making the new RFT.
        coordinator_input: String,
    },
    /// Deny a received KickerCoin, refunding the escrow.
    DenyKickerCoin {
        /// The kicker whose escrow is denied; the signer is the coordinator.
        kicker: u64,
    },
    /// Join a ring as a candidate by depositing stake.
    Candidate {
        /// The ring joined.
        tanistry: u64,
        /// The candidate's token mint.
        candidate_token_mint: u64,
        /// The deposited stake.
        amount: u64,
    },
    /// Mix content: this round's pair signs a shared link jointly.
    MixContent {
        /// The ring mixed in.
        tanistry: u64,
        /// The encrypted link of the mixed content.
        encrypted_link: String,
    },
    /// Rate a mixed content, resolving it exactly once.
    RateOtherContent {
        /// The ring rated in.
        tanistry: u64,
        /// The mix record resolved.
        mix_record: u64,
        /// The rating amount.
        rating: u64,
    },
    /// Replace one's own stake.
    BumpSelfRate {
        /// The ring bumped in.
        tanistry: u64,
        /// The new total stake.
        amount: u64,
    },
    /// List exceeded-rate stake for sale.
    SellExceededRateToken {
        /// The ring sold from.
        tanistry: u64,
        /// The mint the listing is denominated in.
        outside_buyer_token_mint: u64,
        /// The listed amount.
        amount: u64,
    },
    /// Buy a listed resale, matching it exactly.
    BuyExceededRateToken {
        /// The ring bought from.
        tanistry: u64,
        /// The seller whose listing is bought.
        seller: u64,
        /// The listed mint.
        token: u64,
        /// The amount, which must match the listing.
        amount: u64,
    },
    /// Crown a successor and seal the ring.
    Crowning {
        /// The ring sealed.
        tanistry: u64,
        /// The admitted candidate elected crown.
        crown: u64,
    },
    /// Cast the terminal governance vote.
    VoteForCC {
        /// The challenger ring voted in.
        tanistry: u64,
        /// The vote: pull with ranked choices, or push.
        vote: Vote,
        /// The slot the vote is counted at.
        counting_time: u64,
    },
}

/// Builds a draft blank check instruction.
pub fn draft_blank_check(name: String, bc_token_mint: u64) -> (r: ShihonInstruction)
    ensures
        r matches ShihonInstruction::DraftBlankCheck { name: n, bc_token_mint: m } && n@ == name@
            && m == bc_token_mint,
{
    ShihonInstruction::DraftBlankCheck { name, bc_token_mint }
}

/// Builds a publish instruction.
pub fn create_bc_token(name: String, amount: u64, config: BcTokenMetadata) -> (r:
    ShihonInstruction)
    ensures
        r matches ShihonInstruction::CreateBcToken { name: n, amount: a, config: c } && n@
            == name@ && a == amount && c == config,
{
    ShihonInstruction::CreateBcToken { name, amount, config }
}

/// Builds a discard instruction.
pub fn discard_bc_token(name: String) -> (r: ShihonInstruction)
    ensures
        r matches ShihonInstruction::DiscardBcToken { name: n } && n@ == name@,
{
    ShihonInstruction::DiscardBcToken { name }
}

/// Builds a kick instruction.
pub fn kicking_to_coordinator(name: String, coordinator: u64, amount: u64) -> (r:
    ShihonInstruction)
    ensures
        r matches ShihonInstruction::KickingToCoordinator { name: n, coordinator: c, amount: a }
            && n@ == name@ && c == coordinator && a == amount,
{
    ShihonInstruction::KickingToCoordinator { name, coordinator, amount }
}

/// Builds an approve instruction.
pub fn approve_kicker_coin(kicker: u64, coordinator_input: String) -> (r: ShihonInstruction)
    ensures
        r matches ShihonInstruction::ApproveKickerCoin { kicker: k, coordinator_input: ci } && k
            == kicker && ci@ == coordinator_input@,
{
    ShihonInstruction::ApproveKickerCoin { kicker, coordinator_input }
}

/// Builds a deny instruction.
pub fn deny_kicker_coin(kicker: u64) -> (r: ShihonInstruction)
    ensures
        r matches ShihonInstruction::DenyKickerCoin { kicker: k } && k == kicker,
{
    ShihonInstruction::DenyKickerCoin { kicker }
}

/// Builds a candidate admission instruction.
pub fn candidate(tanistry: u64, candidate_token_mint: u64, amount: u64) -> (r: ShihonInstruction)
    ensures
        r matches ShihonInstruction::Candidate { tanistry: t, candidate_token_mint: m, amount: a }
            && t == tanistry && m == candidate_token_mint && a == amount,
{
    ShihonInstruction::Candidate { tanistry, candidate_token_mint, amount }
}

/// Builds a mix instruction.
pub fn mix_content(tanistry: u64, encrypted_link: String) -> (r: ShihonInstruction)
    ensures
        r matches ShihonInstruction::MixContent { tanistry: t, encrypted_link: l } && t == tanistry
            && l@ == encrypted_link@,
{
    ShihonInstruction::MixContent { tanistry, encrypted_link }
}

/// Builds a rating instruction.
pub fn rate_content(tanistry: u64, mix_record: u64, rating: u64) -> (r: ShihonInstruction)
    ensures
        r matches ShihonInstruction::RateOtherContent { tanistry: t, mix_record: m, rating: a }
            && t == tanistry && m == mix_record && a == rating,
{
    ShihonInstruction::RateOtherContent { tanistry, mix_record, rating }
}

/// Builds a bump instruction.
pub fn bump_self_rate(tanistry: u64, amount: u64) -> (r: ShihonInstruction)
    ensures
        r matches ShihonInstruction::BumpSelfRate { tanistry: t, amount: a } && t == tanistry && a
            == amount,
{
    ShihonInstruction::BumpSelfRate { tanistry, amount }
}

/// Builds a listing instruction.
pub fn sell_exceeded_rate_token(
    tanistry: u64,
    outside_buyer_token_mint: u64,
    amount: u64,
) -> (r: ShihonInstruction)
    ensures
        r matches ShihonInstruction::SellExceededRateToken {
            tanistry: t,
            outside_buyer_token_mint: m,
            amount: a,
        } && t == tanistry && m == outside_buyer_token_mint && a == amount,
{
    ShihonInstruction::SellExceededRateToken { tanistry, outside_buyer_token_mint, amount }
}

/// Builds a buy instruction.
pub fn buy_exceeded_rate_token(tanistry: u64, seller: u64, token: u64, amount: u64) -> (r:
    ShihonInstruction)
    ensures
        r matches ShihonInstruction::BuyExceededRateToken {
            tanistry: t,
            seller: s,
            token: k,
            amount: a,
        } && t == tanistry && s == seller && k == token && a == amount,
{
    ShihonInstruction::BuyExceededRateToken { tanistry, seller, token, amount }
}

/// Builds a crowning instruction.
pub fn crowning(tanistry: u64, crown: u64) -> (r: ShihonInstruction)
    ensures
        r matches ShihonInstruction::Crowning { tanistry: t, crown: c } && t == tanistry && c
            == crown,
{
    ShihonInstruction::Crowning { tanistry, crown }
}

/// Builds a terminal vote instruction.
pub fn vote_for_cc(tanistry: u64, vote: Vote, counting_time: u64) -> (r: ShihonInstruction)
    ensures
        r matches ShihonInstruction::VoteForCC { tanistry: t, vote: v, counting_time: c } && t
            == tanistry && v == vote && c == counting_time,
{
    ShihonInstruction::VoteForCC { tanistry, vote, counting_time }
}

} // verus!
