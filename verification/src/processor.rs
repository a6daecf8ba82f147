//! Instruction processors: one handler per instruction, plus the dispatcher.
//!
//! Every handler takes the ledger, the authorizing signers, the externally
//! supplied clock and the instruction payload.  Its contract pins down both
//! outcomes: on which inputs it fails with which error leaving the ledger
//! untouched, and what the ledger looks like after success.

pub mod process_approve_kicker_coin;
pub mod process_bump_self_rate;
pub mod process_buy_exceeded_rate_token;
pub mod process_candidate;
pub mod process_create_bc_token;
pub mod process_crowning;
pub mod process_deny_kicker_coin;
pub mod process_discard_bc_token;
pub mod process_kick_to_coordinator;
pub mod process_mix_content;
pub mod process_rate_other;
pub mod process_sell_exceeded_rate_token;
pub mod process_vote_for_cc;
pub mod process_draft_blank_check;

pub use process_approve_kicker_coin::process_approve_kicker_coin;
pub use process_approve_kicker_coin::spec_approve_kicker_coin_check;
pub use process_approve_kicker_coin::spec_approve_kicker_coin_applied;
pub use process_bump_self_rate::process_bump_self_rate;
pub use process_bump_self_rate::spec_bump_self_rate_check;
pub use process_bump_self_rate::spec_bump_self_rate_applied;
pub use process_buy_exceeded_rate_token::process_buy_exceeded_rate_token;
pub use process_buy_exceeded_rate_token::spec_buy_exceeded_rate_token_check;
pub use process_buy_exceeded_rate_token::spec_buy_exceeded_rate_token_applied;
pub use process_buy_exceeded_rate_token::spec_buy_lapse_applied;
pub use process_candidate::process_candidate;
pub use process_candidate::spec_candidate_check;
pub use process_candidate::spec_candidate_applied;
pub use process_create_bc_token::process_create_bc_token;
pub use process_create_bc_token::spec_create_bc_token_check;
pub use process_create_bc_token::spec_create_bc_token_applied;
pub use process_crowning::process_crowning;
pub use process_crowning::spec_crowning_check;
pub use process_crowning::spec_crowning_applied;
pub use process_deny_kicker_coin::process_deny_kicker_coin;
pub use process_deny_kicker_coin::spec_deny_kicker_coin_check;
pub use process_deny_kicker_coin::spec_deny_kicker_coin_applied;
pub use process_discard_bc_token::process_discard_bc_token;
pub use process_discard_bc_token::spec_discard_bc_token_check;
pub use process_discard_bc_token::spec_discard_bc_token_applied;
pub use process_kick_to_coordinator::process_kick_to_coordinator;
pub use process_mix_content::process_mix_content;
pub use process_rate_other::process_rate_other;
pub use process_sell_exceeded_rate_token::process_sell_exceeded_rate_token;
pub use process_sell_exceeded_rate_token::spec_sell_exceeded_rate_token_check;
pub use process_sell_exceeded_rate_token::spec_sell_exceeded_rate_token_applied;
pub use process_sell_exceeded_rate_token::spec_sellable;
pub use process_vote_for_cc::process_vote_for_cc;
pub use process_vote_for_cc::spec_vote_for_cc_check;
pub use process_vote_for_cc::spec_vote_for_cc_applied;
pub use process_rate_other::spec_rate_other_check;
pub use process_rate_other::spec_rate_other_applied;
pub use process_mix_content::spec_mix_content_check;
pub use process_mix_content::spec_mix_content_applied;
pub use process_kick_to_coordinator::spec_kick_to_coordinator_check;
pub use process_kick_to_coordinator::spec_kick_to_coordinator_applied;
pub use process_draft_blank_check::process_draft_blank_check;
pub use process_draft_blank_check::spec_draft_blank_check_check;
pub use process_draft_blank_check::spec_draft_blank_check_applied;

use crate::cc_vote_record::Vote;
use crate::enums::spec_state_moves_forward;
use crate::error::ShihonError;
use crate::instruction::ShihonInstruction;
use crate::ledger::Ledger;
use vstd::prelude::*;

verus! {

/// True when the ledger holds an accepted escrow record for the pair.
pub open spec fn spec_has_accepted_escrow(l: Ledger, kicker: u64, coordinator: u64) -> bool {
    exists|i: int|
        0 <= i < l.kicker_coin_owner_records@.len()
            && (#[trigger] l.kicker_coin_owner_records@[i]).kicker_coin_holder == kicker
            && l.kicker_coin_owner_records@[i].coordinator == coordinator
            && l.kicker_coin_owner_records@[i].is_kick_off
}

/// What one dispatched instruction did: for each request kind, either the
/// error its handler's decision ladder names with the ledger untouched, or
/// the handler's success relation — the dispatcher adds only the demand
/// that the required signers are present.
pub open spec fn spec_dispatch_outcome(
    old_l: Ledger,
    new_l: Ledger,
    signers: Seq<u64>,
    now: i64,
    instruction: ShihonInstruction,
    r: Result<(), ShihonError>,
) -> bool {
    match instruction {
        ShihonInstruction::DraftBlankCheck { name, bc_token_mint } => if signers.len() < 1 {
            r == Err::<(), ShihonError>(ShihonError::InvalidInstruction) && new_l == old_l
        } else {
            match spec_draft_blank_check_check(old_l, name@) {
                Some(e) => r == Err::<(), ShihonError>(e) && new_l == old_l,
                None => r == Ok::<(), ShihonError>(()) && spec_draft_blank_check_applied(
                    old_l,
                    new_l,
                    signers[0],
                    name@,
                    bc_token_mint,
                    now,
                ),
            }
        },
        ShihonInstruction::CreateBcToken { name, amount, config } => if signers.len() < 1 {
            r == Err::<(), ShihonError>(ShihonError::InvalidInstruction) && new_l == old_l
        } else {
            match spec_create_bc_token_check(old_l, signers[0], name@, config.is_public) {
                Some(e) => r == Err::<(), ShihonError>(e) && new_l == old_l,
                None => r == Ok::<(), ShihonError>(()) && spec_create_bc_token_applied(
                    old_l,
                    new_l,
                    name@,
                    amount,
                    config,
                ),
            }
        },
        ShihonInstruction::DiscardBcToken { name } => if signers.len() < 1 {
            r == Err::<(), ShihonError>(ShihonError::InvalidInstruction) && new_l == old_l
        } else {
            match spec_discard_bc_token_check(old_l, signers[0], name@) {
                Some(e) => r == Err::<(), ShihonError>(e) && new_l == old_l,
                None => r == Ok::<(), ShihonError>(()) && spec_discard_bc_token_applied(
                    old_l,
                    new_l,
                    name@,
                ),
            }
        },
        ShihonInstruction::KickingToCoordinator { name, coordinator, amount } => if signers.len()
            < 1 {
            r == Err::<(), ShihonError>(ShihonError::InvalidInstruction) && new_l == old_l
        } else {
            match spec_kick_to_coordinator_check(old_l, signers[0], name@, coordinator) {
                Some(e) => r == Err::<(), ShihonError>(e) && new_l == old_l,
                None => r == Ok::<(), ShihonError>(()) && spec_kick_to_coordinator_applied(
                    old_l,
                    new_l,
                    signers[0],
                    name@,
                    coordinator,
                    amount,
                ),
            }
        },
        ShihonInstruction::ApproveKickerCoin { kicker, coordinator_input } => if signers.len()
            < 1 {
            r == Err::<(), ShihonError>(ShihonError::InvalidInstruction) && new_l == old_l
        } else {
            match spec_approve_kicker_coin_check(old_l, signers[0], kicker) {
                Some(e) => r == Err::<(), ShihonError>(e) && new_l == old_l,
                None => r == Ok::<(), ShihonError>(()) && spec_approve_kicker_coin_applied(
                    old_l,
                    new_l,
                    signers[0],
                    kicker,
                    coordinator_input@,
                ),
            }
        },
        ShihonInstruction::DenyKickerCoin { kicker } => if signers.len() < 1 {
            r == Err::<(), ShihonError>(ShihonError::InvalidInstruction) && new_l == old_l
        } else {
            match spec_deny_kicker_coin_check(old_l, signers[0], kicker) {
                Some(e) => r == Err::<(), ShihonError>(e) && new_l == old_l,
                None => r == Ok::<(), ShihonError>(()) && spec_deny_kicker_coin_applied(
                    old_l,
                    new_l,
                    signers[0],
                    kicker,
                ),
            }
        },
        ShihonInstruction::Candidate { tanistry, candidate_token_mint, amount } => if signers.len()
            < 1 {
            r == Err::<(), ShihonError>(ShihonError::InvalidInstruction) && new_l == old_l
        } else {
            match spec_candidate_check(old_l, signers[0], tanistry, amount) {
                Some(e) => r == Err::<(), ShihonError>(e) && new_l == old_l,
                None => r == Ok::<(), ShihonError>(()) && spec_candidate_applied(
                    old_l,
                    new_l,
                    signers[0],
                    tanistry,
                    candidate_token_mint,
                    amount,
                ),
            }
        },
        ShihonInstruction::MixContent { tanistry, encrypted_link } => if signers.len() < 2 {
            r == Err::<(), ShihonError>(ShihonError::InvalidInstruction) && new_l == old_l
        } else {
            match spec_mix_content_check(old_l, signers[0], signers[1], tanistry) {
                Some(e) => r == Err::<(), ShihonError>(e) && new_l == old_l,
                None => r == Ok::<(), ShihonError>(()) && spec_mix_content_applied(
                    old_l,
                    new_l,
                    signers[0],
                    signers[1],
                    tanistry,
                    encrypted_link@,
                ),
            }
        },
        ShihonInstruction::RateOtherContent { tanistry, mix_record, rating } => if signers.len()
            < 1 {
            r == Err::<(), ShihonError>(ShihonError::InvalidInstruction) && new_l == old_l
        } else {
            match spec_rate_other_check(old_l, signers[0], tanistry, mix_record, rating) {
                Some(e) => r == Err::<(), ShihonError>(e) && new_l == old_l,
                None => r == Ok::<(), ShihonError>(()) && spec_rate_other_applied(
                    old_l,
                    new_l,
                    signers[0],
                    tanistry,
                    mix_record,
                    rating,
                    now,
                ),
            }
        },
        ShihonInstruction::BumpSelfRate { tanistry, amount } => if signers.len() < 1 {
            r == Err::<(), ShihonError>(ShihonError::InvalidInstruction) && new_l == old_l
        } else {
            match spec_bump_self_rate_check(old_l, signers[0], tanistry, amount) {
                Some(e) => r == Err::<(), ShihonError>(e) && new_l == old_l,
                None => r == Ok::<(), ShihonError>(()) && spec_bump_self_rate_applied(
                    old_l,
                    new_l,
                    signers[0],
                    tanistry,
                    amount,
                ),
            }
        },
        ShihonInstruction::SellExceededRateToken {
            tanistry,
            outside_buyer_token_mint,
            amount,
        } => if signers.len() < 1 {
            r == Err::<(), ShihonError>(ShihonError::InvalidInstruction) && new_l == old_l
        } else {
            match spec_sell_exceeded_rate_token_check(old_l, signers[0], tanistry, amount, now) {
                Some(e) => r == Err::<(), ShihonError>(e) && new_l == old_l,
                None => r == Ok::<(), ShihonError>(()) && spec_sell_exceeded_rate_token_applied(
                    old_l,
                    new_l,
                    signers[0],
                    tanistry,
                    outside_buyer_token_mint,
                    amount,
                    now,
                ),
            }
        },
        ShihonInstruction::BuyExceededRateToken { tanistry, seller, token, amount } => if signers.len()
            < 1 {
            r == Err::<(), ShihonError>(ShihonError::InvalidInstruction) && new_l == old_l
        } else {
            match spec_buy_exceeded_rate_token_check(old_l, tanistry, seller, token, amount, now) {
                Some(e) => r == Err::<(), ShihonError>(e) && if e
                    == ShihonError::DeadlineExpired {
                    spec_buy_lapse_applied(old_l, new_l, tanistry, seller)
                } else {
                    new_l == old_l
                },
                None => r == Ok::<(), ShihonError>(()) && spec_buy_exceeded_rate_token_applied(
                    old_l,
                    new_l,
                    signers[0],
                    tanistry,
                    seller,
                    amount,
                ),
            }
        },
        ShihonInstruction::Crowning { tanistry, crown } => if signers.len() < 1 {
            r == Err::<(), ShihonError>(ShihonError::InvalidInstruction) && new_l == old_l
        } else {
            match spec_crowning_check(old_l, signers[0], tanistry, crown) {
                Some(e) => r == Err::<(), ShihonError>(e) && new_l == old_l,
                None => r == Ok::<(), ShihonError>(()) && spec_crowning_applied(
                    old_l,
                    new_l,
                    tanistry,
                    crown,
                ),
            }
        },
        ShihonInstruction::VoteForCC { tanistry, vote, counting_time } => if signers.len() < 1 {
            r == Err::<(), ShihonError>(ShihonError::InvalidInstruction) && new_l == old_l
        } else {
            match spec_vote_for_cc_check(old_l, signers[0], tanistry) {
                Some(e) => r == Err::<(), ShihonError>(e) && new_l == old_l,
                None => r == Ok::<(), ShihonError>(()) && spec_vote_for_cc_applied(
                    old_l,
                    new_l,
                    signers[0],
                    tanistry,
                    vote,
                    counting_time,
                ),
            }
        },
    }
}

/// Validates the signers and routes one request to its handler.  Beyond
/// the per-request outcome, three ledger-wide laws hold across every
/// dispatch: a content token never leaves the registry, keeps its name and
/// only ever moves forward through its lifecycle; an accepted escrow stays
/// accepted; and a resolved mix record never changes again.
#[verifier::rlimit(100)]
pub fn process_instruction(
    ledger: &mut Ledger,
    signers: &Vec<u64>,
    now: i64,
    instruction: ShihonInstruction,
) -> (r: Result<(), ShihonError>)
    requires
        old(ledger).wf(),
        now >= 0,
    ensures
        final(ledger).wf(),
        spec_dispatch_outcome(*old(ledger), *final(ledger), signers@, now, instruction, r),
        final(ledger).bc_tokens@.len() >= old(ledger).bc_tokens@.len(),
        forall|i: int|
            0 <= i < old(ledger).bc_tokens@.len()
                ==> (#[trigger] final(ledger).bc_tokens@[i]).name@
                == old(ledger).bc_tokens@[i].name@ && spec_state_moves_forward(
                old(ledger).bc_tokens@[i].bc_token_state,
                final(ledger).bc_tokens@[i].bc_token_state,
            ),
        forall|k: u64, c: u64|
            spec_has_accepted_escrow(*old(ledger), k, c) ==> spec_has_accepted_escrow(
                *final(ledger),
                k,
                c,
            ),
        final(ledger).tanistries@.len() >= old(ledger).tanistries@.len(),
        forall|t: int, m: int|
            0 <= t < old(ledger).tanistries@.len() && 0 <= m
                < old(ledger).tanistries@[t].mix_content_records@.len()
                && !(#[trigger] old(ledger).tanistries@[t].mix_content_records@[m]).spec_unresolved()
                ==> final(ledger).tanistries@[t].mix_content_records@.len()
                >= old(ledger).tanistries@[t].mix_content_records@.len()
                && final(ledger).tanistries@[t].mix_content_records@[m]
                == old(ledger).tanistries@[t].mix_content_records@[m],
{
    let r = match instruction {
        ShihonInstruction::DraftBlankCheck { name, bc_token_mint } => {
            if signers.len() < 1 {
                Err(ShihonError::InvalidInstruction)
            } else {
                process_draft_blank_check(ledger, signers[0], name, bc_token_mint, now)
            }
        },
        ShihonInstruction::CreateBcToken { name, amount, config } => {
            if signers.len() < 1 {
                Err(ShihonError::InvalidInstruction)
            } else {
                process_create_bc_token(ledger, signers[0], name, amount, config)
            }
        },
        ShihonInstruction::DiscardBcToken { name } => {
            if signers.len() < 1 {
                Err(ShihonError::InvalidInstruction)
            } else {
                process_discard_bc_token(ledger, signers[0], name)
            }
        },
        ShihonInstruction::KickingToCoordinator { name, coordinator, amount } => {
            if signers.len() < 1 {
                Err(ShihonError::InvalidInstruction)
            } else {
                process_kick_to_coordinator(ledger, signers[0], name, coordinator, amount)
            }
        },
        ShihonInstruction::ApproveKickerCoin { kicker, coordinator_input } => {
            if signers.len() < 1 {
                Err(ShihonError::InvalidInstruction)
            } else {
                process_approve_kicker_coin(ledger, signers[0], kicker, coordinator_input)
            }
        },
        ShihonInstruction::DenyKickerCoin { kicker } => {
            if signers.len() < 1 {
                Err(ShihonError::InvalidInstruction)
            } else {
                process_deny_kicker_coin(ledger, signers[0], kicker)
            }
        },
        ShihonInstruction::Candidate { tanistry, candidate_token_mint, amount } => {
            if signers.len() < 1 {
                Err(ShihonError::InvalidInstruction)
            } else {
                process_candidate(ledger, signers[0], tanistry, candidate_token_mint, amount)
            }
        },
        ShihonInstruction::MixContent { tanistry, encrypted_link } => {
            if signers.len() < 2 {
                Err(ShihonError::InvalidInstruction)
            } else {
                process_mix_content(ledger, signers[0], signers[1], tanistry, encrypted_link)
            }
        },
        ShihonInstruction::RateOtherContent { tanistry, mix_record, rating } => {
            if signers.len() < 1 {
                Err(ShihonError::InvalidInstruction)
            } else {
                process_rate_other(ledger, signers[0], tanistry, mix_record, rating, now)
            }
        },
        ShihonInstruction::BumpSelfRate { tanistry, amount } => {
            if signers.len() < 1 {
                Err(ShihonError::InvalidInstruction)
            } else {
                process_bump_self_rate(ledger, signers[0], tanistry, amount)
            }
        },
        ShihonInstruction::SellExceededRateToken {
            tanistry,
            outside_buyer_token_mint,
            amount,
        } => {
            if signers.len() < 1 {
                Err(ShihonError::InvalidInstruction)
            } else {
                process_sell_exceeded_rate_token(
                    ledger,
                    signers[0],
                    tanistry,
                    outside_buyer_token_mint,
                    amount,
                    now,
                )
            }
        },
        ShihonInstruction::BuyExceededRateToken { tanistry, seller, token, amount } => {
            if signers.len() < 1 {
                Err(ShihonError::InvalidInstruction)
            } else {
                process_buy_exceeded_rate_token(
                    ledger,
                    signers[0],
                    tanistry,
                    seller,
                    token,
                    amount,
                    now,
                )
            }
        },
        ShihonInstruction::Crowning { tanistry, crown } => {
            if signers.len() < 1 {
                Err(ShihonError::InvalidInstruction)
            } else {
                process_crowning(ledger, signers[0], tanistry, crown)
            }
        },
        ShihonInstruction::VoteForCC { tanistry, vote, counting_time } => {
            if signers.len() < 1 {
                Err(ShihonError::InvalidInstruction)
            } else {
                process_vote_for_cc(ledger, signers[0], tanistry, vote, counting_time)
            }
        },
    };
    proof {
        lemma_accepted_escrow_persists(*old(ledger), *ledger);
    }
    r
}

/// Law: an accepted escrow resolves only once — on a ledger whose record
/// for the pair is already accepted, a second approval and any denial both
/// land on the same state violation, and by the processors' contracts a
/// refused instruction leaves the ledger untouched.
pub proof fn lemma_escrow_resolves_once(l: Ledger, kicker: u64, coordinator: u64)
    requires
        l.wf(),
        l.spec_has_escrow(kicker, coordinator),
        l.kicker_coin_owner_records@[l.spec_escrow_index(kicker, coordinator)].is_kick_off,
    ensures
        spec_approve_kicker_coin_check(l, coordinator, kicker) == Some(
            ShihonError::KickerCoinAlreadyKickedOff,
        ),
        spec_deny_kicker_coin_check(l, coordinator, kicker) == Some(
            ShihonError::KickerCoinAlreadyKickedOff,
        ),
{
}

/// Law: a mix record is rated at most once — on a ledger whose mix record
/// is already resolved, a second rating lands on the same state violation
/// whoever signs it and whatever the rating, and by the processors'
/// contracts a refused instruction leaves the ledger untouched.
pub proof fn lemma_mix_resolves_once(
    l: Ledger,
    signer: u64,
    tanistry: u64,
    mix_record: u64,
    rating: u64,
)
    requires
        l.wf(),
        (tanistry as int) < l.tanistries@.len(),
        !l.tanistries@[tanistry as int].is_sealed,
        (mix_record as int) < l.tanistries@[tanistry as int].mix_content_records@.len(),
        !l.tanistries@[tanistry as int].mix_content_records@[mix_record as int].spec_unresolved(),
    ensures
        spec_rate_other_check(l, signer, tanistry, mix_record, rating) == Some(
            ShihonError::MixContentAlreadyResolved,
        ),
{
}

/// The escrow-persistence step used by the dispatcher: between any two
/// ledgers related by one instruction, an accepted escrow record survives,
/// because an approval only sets the flag, a denial removes only pending
/// records, and nothing else touches the escrow ledger.
proof fn lemma_accepted_escrow_persists(old_l: Ledger, new_l: Ledger)
    requires
        new_l.kicker_coin_owner_records@ == old_l.kicker_coin_owner_records@ || (exists|i: int|
            #![trigger old_l.kicker_coin_owner_records@[i]]
            0 <= i < old_l.kicker_coin_owner_records@.len()
                && new_l.kicker_coin_owner_records@ == old_l.kicker_coin_owner_records@.update(
                i,
                crate::kicker_coin_owner_record::KickerCoinOwnerRecord {
                    is_kick_off: true,
                    ..old_l.kicker_coin_owner_records@[i]
                },
            )) || (exists|i: int|
            #![trigger old_l.kicker_coin_owner_records@[i]]
            0 <= i < old_l.kicker_coin_owner_records@.len()
                && !old_l.kicker_coin_owner_records@[i].is_kick_off
                && new_l.kicker_coin_owner_records@ == old_l.kicker_coin_owner_records@.remove(
                i,
            )) || (new_l.kicker_coin_owner_records@.len()
            >= old_l.kicker_coin_owner_records@.len()
            && new_l.kicker_coin_owner_records@.subrange(
            0,
            old_l.kicker_coin_owner_records@.len() as int,
        ) == old_l.kicker_coin_owner_records@),
    ensures
        forall|k: u64, c: u64|
            spec_has_accepted_escrow(old_l, k, c) ==> spec_has_accepted_escrow(new_l, k, c),
{
    assert forall|k: u64, c: u64|
        spec_has_accepted_escrow(old_l, k, c) implies spec_has_accepted_escrow(
        new_l,
        k,
        c,
    ) by {
        let w = choose|w: int|
            0 <= w < old_l.kicker_coin_owner_records@.len()
                && (#[trigger] old_l.kicker_coin_owner_records@[w]).kicker_coin_holder == k
                && old_l.kicker_coin_owner_records@[w].coordinator == c
                && old_l.kicker_coin_owner_records@[w].is_kick_off;
        if new_l.kicker_coin_owner_records@ == old_l.kicker_coin_owner_records@ {
            assert(new_l.kicker_coin_owner_records@[w].is_kick_off);
        } else if exists|i: int|
            #![trigger old_l.kicker_coin_owner_records@[i]]
            0 <= i < old_l.kicker_coin_owner_records@.len()
                && new_l.kicker_coin_owner_records@ == old_l.kicker_coin_owner_records@.update(
                i,
                crate::kicker_coin_owner_record::KickerCoinOwnerRecord {
                    is_kick_off: true,
                    ..old_l.kicker_coin_owner_records@[i]
                },
            ) {
            let i = choose|i: int|
                #![trigger old_l.kicker_coin_owner_records@[i]]
                0 <= i < old_l.kicker_coin_owner_records@.len()
                    && new_l.kicker_coin_owner_records@
                    == old_l.kicker_coin_owner_records@.update(
                    i,
                    crate::kicker_coin_owner_record::KickerCoinOwnerRecord {
                        is_kick_off: true,
                        ..old_l.kicker_coin_owner_records@[i]
                    },
                );
            assert(new_l.kicker_coin_owner_records@[w].kicker_coin_holder == k);
            assert(new_l.kicker_coin_owner_records@[w].coordinator == c);
            assert(new_l.kicker_coin_owner_records@[w].is_kick_off);
        } else if exists|i: int|
            #![trigger old_l.kicker_coin_owner_records@[i]]
            0 <= i < old_l.kicker_coin_owner_records@.len()
                && !old_l.kicker_coin_owner_records@[i].is_kick_off
                && new_l.kicker_coin_owner_records@ == old_l.kicker_coin_owner_records@.remove(
                i,
            ) {
            let i = choose|i: int|
                #![trigger old_l.kicker_coin_owner_records@[i]]
                0 <= i < old_l.kicker_coin_owner_records@.len()
                    && !old_l.kicker_coin_owner_records@[i].is_kick_off
                    && new_l.kicker_coin_owner_records@
                    == old_l.kicker_coin_owner_records@.remove(i);
            if w < i {
                assert(new_l.kicker_coin_owner_records@[w]
                    == old_l.kicker_coin_owner_records@[w]);
            } else {
                assert(w != i);
                assert(new_l.kicker_coin_owner_records@[w - 1]
                    == old_l.kicker_coin_owner_records@[w]);
            }
        } else {
            assert(new_l.kicker_coin_owner_records@.len()
                >= old_l.kicker_coin_owner_records@.len());
            assert(new_l.kicker_coin_owner_records@.subrange(
                0,
                old_l.kicker_coin_owner_records@.len() as int,
            ) == old_l.kicker_coin_owner_records@);
            assert(new_l.kicker_coin_owner_records@[w] == new_l.kicker_coin_owner_records@.subrange(
                0,
                old_l.kicker_coin_owner_records@.len() as int,
            )[w]);
            assert(new_l.kicker_coin_owner_records@[w].is_kick_off);
        }
    }
}

} // verus!
