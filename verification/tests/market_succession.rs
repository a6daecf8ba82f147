//! Secondary market, crowning and the terminal vote.

use shihon::bc_token_metadata::{BcTokenMetadata, ContentType};
use shihon::cc_vote_record::{CCVoteChoice, Vote};
use shihon::enums::{BcTokenState, ShihonAccountType};
use shihon::error::ShihonError;
use shihon::ledger::{new_ledger, Ledger};
use shihon::processor::{
    process_approve_kicker_coin, process_buy_exceeded_rate_token, process_bump_self_rate,
    process_candidate, process_create_bc_token, process_crowning, process_draft_blank_check,
    process_kick_to_coordinator, process_mix_content, process_rate_other,
    process_sell_exceeded_rate_token, process_vote_for_cc,
};
use shihon::tanistry::get_cc_value;

const KICKER: u64 = 100;
const COORDINATOR: u64 = 200;
const CANDIDATE_X: u64 = 300;
const CANDIDATE_Y: u64 = 400;
const BUYER: u64 = 900;
const MINT: u64 = 1;

fn public_config() -> BcTokenMetadata {
    BcTokenMetadata {
        account_type: ShihonAccountType::BcTokenMetadata,
        content_type: ContentType::Ordinary,
        content_fingerprint: 42,
        updated_at: 1,
        version: "1".to_string(),
        is_public: true,
    }
}

/// Opens a ring with candidates X (deposit 300) and Y (deposit 150).
fn ledger_with_candidates() -> Ledger {
    let mut l = new_ledger();
    process_draft_blank_check(&mut l, KICKER, "alpha".to_string(), MINT, 0).unwrap();
    process_create_bc_token(&mut l, KICKER, "alpha".to_string(), 1000, public_config()).unwrap();
    process_kick_to_coordinator(&mut l, KICKER, "alpha".to_string(), COORDINATOR, 500).unwrap();
    process_approve_kicker_coin(&mut l, COORDINATOR, KICKER, "go".to_string()).unwrap();
    process_candidate(&mut l, CANDIDATE_X, 0, MINT, 300).unwrap();
    process_candidate(&mut l, CANDIDATE_Y, 0, MINT, 150).unwrap();
    l
}

/// Runs one full mix-and-rate round, returning (rater, buddy).
fn run_round(l: &mut Ledger, rating: u64) -> (u64, u64) {
    let order = l.tanistries[0].round_candidate_order();
    let rater = order[0];
    let buddy = order[1];
    let mix_index = l.tanistries[0].mix_content_records.len() as u64;
    process_mix_content(l, rater, buddy, 0, "link".to_string()).unwrap();
    process_rate_other(l, rater, 0, mix_index, rating, 10).unwrap();
    (rater, buddy)
}

/// Rates the given buddy up over the exceeded-rate cap, whatever side of
/// the pairing they land on, and returns the seller and their deposit.
fn ledger_with_surplus() -> (Ledger, u64, u64) {
    let mut l = ledger_with_candidates();
    // One round at the ceiling: the buddy's rated total reaches 1000.
    let (_r1, b1) = run_round(&mut l, 1000);
    let seller = b1;
    let deposit = if seller == CANDIDATE_X { 300 } else { 150 };
    (l, seller, deposit)
}

#[test]
fn listing_requires_surplus() {
    let mut l = ledger_with_candidates();
    let premature = process_sell_exceeded_rate_token(&mut l, CANDIDATE_X, 0, MINT, 30, 0);
    assert_eq!(premature, Err(ShihonError::NoExceededRateToSell));
}

#[test]
fn listing_and_exact_buy() {
    let (mut l, seller, deposit) = ledger_with_surplus();
    // The seller's effective stake is deposit + 1000 against the cap 1000,
    // so exactly the deposit-bounded surplus is sellable.
    let surplus = deposit.min(deposit + 1000 - 1000);
    assert!(surplus >= 30);
    process_sell_exceeded_rate_token(&mut l, seller, 0, MINT, 30, 0).unwrap();
    let listing = &l.tanistries[0].outside_buyer_records[0];
    assert!(listing.is_open);
    assert_eq!(listing.outside_buyer_token_deposit_amount, 30);
    assert_eq!(listing.deadline, 86400);

    let partial = process_buy_exceeded_rate_token(&mut l, BUYER, 0, seller, MINT, 29, 100);
    assert_eq!(partial, Err(ShihonError::ExpectedAmountMismatch));

    let holding_before = l.tanistries[0].holding_balance;
    process_buy_exceeded_rate_token(&mut l, BUYER, 0, seller, MINT, 30, 100).unwrap();
    let listing = &l.tanistries[0].outside_buyer_records[0];
    assert!(!listing.is_open);
    assert_eq!(listing.outside_buyer_token_owner, Some(BUYER));
    assert_eq!(l.tanistries[0].holding_balance, holding_before - 30);
}

#[test]
fn lapsed_listing_fails_with_deadline_expired_and_restores_the_stake() {
    let (mut l, seller, deposit) = ledger_with_surplus();
    process_sell_exceeded_rate_token(&mut l, seller, 0, MINT, 30, 0).unwrap();
    let deadline = l.tanistries[0].outside_buyer_records[0].deadline;

    let late = process_buy_exceeded_rate_token(&mut l, BUYER, 0, seller, MINT, 30, deadline + 1);
    assert_eq!(late, Err(ShihonError::DeadlineExpired));
    assert!(!l.tanistries[0].outside_buyer_records[0].is_open);
    // The surplus is back with the seller's recorded stake, untouched.
    let ci = if seller == CANDIDATE_X { 0 } else { 1 };
    assert_eq!(
        l.tanistries[0].candidate_limit_record_list[ci].candidate_token_deposit_amount,
        deposit
    );

    let retry = process_buy_exceeded_rate_token(&mut l, BUYER, 0, seller, MINT, 30, deadline + 2);
    assert_eq!(retry, Err(ShihonError::OutsideBuyerRecordNotFound));
}

#[test]
fn one_open_listing_per_seller() {
    let (mut l, seller, _deposit) = ledger_with_surplus();
    process_sell_exceeded_rate_token(&mut l, seller, 0, MINT, 30, 0).unwrap();
    let second = process_sell_exceeded_rate_token(&mut l, seller, 0, MINT, 10, 0);
    assert_eq!(second, Err(ShihonError::OutsideBuyerRecordAlreadyExists));
}

#[test]
fn bump_cannot_undercut_an_open_listing() {
    let (mut l, seller, _deposit) = ledger_with_surplus();
    process_sell_exceeded_rate_token(&mut l, seller, 0, MINT, 30, 0).unwrap();
    let undercut = process_bump_self_rate(&mut l, seller, 0, 29);
    assert_eq!(undercut, Err(ShihonError::StakeCommittedToSale));
}

#[test]
fn buy_rejects_wrong_mint_and_missing_listing() {
    let (mut l, seller, _deposit) = ledger_with_surplus();
    let missing = process_buy_exceeded_rate_token(&mut l, BUYER, 0, seller, MINT, 30, 0);
    assert_eq!(missing, Err(ShihonError::OutsideBuyerRecordNotFound));
    process_sell_exceeded_rate_token(&mut l, seller, 0, MINT, 30, 0).unwrap();
    let wrong_mint = process_buy_exceeded_rate_token(&mut l, BUYER, 0, seller, MINT + 1, 30, 0);
    assert_eq!(wrong_mint, Err(ShihonError::InvalidBcTokenMint));
}

#[test]
fn listing_deadline_overflow_is_detected() {
    let (mut l, seller, _deposit) = ledger_with_surplus();
    let overflow = process_sell_exceeded_rate_token(&mut l, seller, 0, MINT, 30, i64::MAX - 1);
    assert_eq!(overflow, Err(ShihonError::AmountOverflow));
}

#[test]
fn crowning_waits_for_rounds_and_seals_the_ring() {
    let mut l = ledger_with_candidates();
    run_round(&mut l, 60);
    let early = process_crowning(&mut l, COORDINATOR, 0, CANDIDATE_X);
    assert_eq!(early, Err(ShihonError::NotEnoughRounds));

    run_round(&mut l, 60);
    run_round(&mut l, 60);
    assert_eq!(l.tanistries[0].number_of_round, 3);

    let usurper = process_crowning(&mut l, CANDIDATE_X, 0, CANDIDATE_X);
    assert_eq!(usurper, Err(ShihonError::CoordinatorMustSign));

    let outsider = process_crowning(&mut l, COORDINATOR, 0, 999);
    assert_eq!(outsider, Err(ShihonError::InvalidCrownCandidate));

    let fingerprint_before = l.tanistries[0].building_fingerprint;
    process_crowning(&mut l, COORDINATOR, 0, CANDIDATE_X).unwrap();
    assert!(l.tanistries[0].is_sealed);
    assert_eq!(l.tanistries[0].crown, Some(CANDIDATE_X));
    assert_ne!(l.tanistries[0].building_fingerprint, fingerprint_before);
    assert_eq!(l.bc_tokens[0].bc_token_state, BcTokenState::EnableToRefund);

    let after = process_candidate(&mut l, 777, 0, MINT, 10);
    assert_eq!(after, Err(ShihonError::InvalidTanistryState));
}

#[test]
fn crowned_kicker_links_the_successor_ring() {
    let mut l = ledger_with_candidates();
    run_round(&mut l, 60);
    run_round(&mut l, 60);
    run_round(&mut l, 60);
    process_crowning(&mut l, COORDINATOR, 0, CANDIDATE_X).unwrap();

    // The crown drafts its own token and kicks a new coordinator.
    process_draft_blank_check(&mut l, CANDIDATE_X, "beta".to_string(), MINT, 0).unwrap();
    process_create_bc_token(&mut l, CANDIDATE_X, "beta".to_string(), 100, public_config())
        .unwrap();
    process_kick_to_coordinator(&mut l, CANDIDATE_X, "beta".to_string(), COORDINATOR, 50)
        .unwrap();
    process_approve_kicker_coin(&mut l, COORDINATOR, CANDIDATE_X, "next".to_string()).unwrap();

    assert_eq!(l.tanistries.len(), 2);
    assert_eq!(l.tanistries[0].next_tanistry_id, Some(1));
    assert_eq!(l.tanistries[1].previous_tanistry_id, Some(0));
}

#[test]
fn terminal_vote_opens_late_and_counts_once_per_voter() {
    let mut l = ledger_with_candidates();
    for _ in 0..4 {
        run_round(&mut l, 60);
    }
    let early = process_vote_for_cc(&mut l, CANDIDATE_X, 0, Vote::Push, 77);
    assert_eq!(early, Err(ShihonError::VotingNotEnabled));

    run_round(&mut l, 60);
    assert_eq!(l.tanistries[0].number_of_round, 5);

    let stranger = process_vote_for_cc(&mut l, 999, 0, Vote::Push, 77);
    assert_eq!(stranger, Err(ShihonError::CandidateLimitRecordNotFound));

    process_vote_for_cc(&mut l, CANDIDATE_X, 0, Vote::Push, 77).unwrap();
    assert_eq!(l.bc_tokens[0].bc_token_state, BcTokenState::EnableToVoteToCC);
    assert_eq!(l.tanistries[0].cc_vote_records.len(), 1);
    assert_eq!(l.tanistries[0].cc_vote_records[0].voter_weight, 300);
    assert_eq!(l.tanistries[0].cc_vote_records[0].counting_time, 77);

    let again = process_vote_for_cc(&mut l, CANDIDATE_X, 0, Vote::Push, 78);
    assert_eq!(again, Err(ShihonError::VoteAlreadyCast));

    let choices = vec![CCVoteChoice { challenger_ring: 0, target_ring: Some(0) }];
    process_vote_for_cc(&mut l, CANDIDATE_Y, 0, Vote::Pull(choices), 79).unwrap();
    assert_eq!(l.tanistries[0].cc_vote_records.len(), 2);
    assert_eq!(get_cc_value(&l.tanistries[0]), Some(450));
}
