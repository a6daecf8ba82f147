//! The protocol lifecycle: registry, escrow, admission, mix and rate.

use shihon::bc_token_metadata::{BcTokenMetadata, ContentType};
use shihon::enums::{BcTokenState, ShihonAccountType};
use shihon::error::ShihonError;
use shihon::ledger::{new_ledger, Ledger};
use shihon::mix_content_record::OptionMixResult;
use shihon::processor::{
    process_approve_kicker_coin, process_bump_self_rate, process_candidate,
    process_create_bc_token, process_deny_kicker_coin, process_draft_blank_check,
    process_kick_to_coordinator, process_mix_content, process_rate_other,
};
use shihon::tanistry::get_tanistry_value;

const KICKER: u64 = 100;
const COORDINATOR: u64 = 200;
const CANDIDATE_X: u64 = 300;
const CANDIDATE_Y: u64 = 400;
const MINT: u64 = 1;

fn public_config() -> BcTokenMetadata {
    BcTokenMetadata {
        account_type: ShihonAccountType::BcTokenMetadata,
        content_type: ContentType::Ordinary,
        content_fingerprint: 42,
        updated_at: 1,
        version: "1".to_string(),
        is_public: true,
    }
}

fn ledger_with_ring() -> Ledger {
    let mut l = new_ledger();
    process_draft_blank_check(&mut l, KICKER, "alpha".to_string(), MINT, 0).unwrap();
    process_create_bc_token(&mut l, KICKER, "alpha".to_string(), 1000, public_config()).unwrap();
    process_kick_to_coordinator(&mut l, KICKER, "alpha".to_string(), COORDINATOR, 500).unwrap();
    process_approve_kicker_coin(&mut l, COORDINATOR, KICKER, "go".to_string()).unwrap();
    l
}

#[test]
fn draft_publish_kick_approve_scenario() {
    let mut l = new_ledger();
    process_draft_blank_check(&mut l, KICKER, "alpha".to_string(), MINT, 0).unwrap();
    assert_eq!(l.bc_tokens[0].bc_token_state, BcTokenState::DraftBlankCheck);

    process_create_bc_token(&mut l, KICKER, "alpha".to_string(), 1000, public_config()).unwrap();
    assert_eq!(l.bc_tokens[0].bc_token_state, BcTokenState::PublicOnTheGround);
    assert_eq!(l.bc_tokens[0].amount_of_coin, 1000);

    process_kick_to_coordinator(&mut l, KICKER, "alpha".to_string(), COORDINATOR, 500).unwrap();
    assert_eq!(l.kicker_coin_owner_records.len(), 1);
    assert_eq!(l.kicker_coin_owner_records[0].kicker_coin_holder, KICKER);
    assert_eq!(l.kicker_coin_owner_records[0].coordinator, COORDINATOR);
    assert_eq!(l.kicker_coin_owner_records[0].amount_of_kicker_coin, 500);
    assert!(!l.kicker_coin_owner_records[0].is_kick_off);

    process_approve_kicker_coin(&mut l, COORDINATOR, KICKER, "go".to_string()).unwrap();
    assert!(l.kicker_coin_owner_records[0].is_kick_off);
    assert_eq!(l.tanistries.len(), 1);
    assert_eq!(l.bc_tokens[0].bc_token_state, BcTokenState::EnableToCandidate);
    assert_eq!(l.tanistries[0].holding_balance, 0);
    assert_eq!(l.tanistries[0].config.candidate_limit_bar, 500);
}

#[test]
fn escrow_resolves_exactly_once() {
    let mut l = ledger_with_ring();
    let second = process_approve_kicker_coin(&mut l, COORDINATOR, KICKER, "again".to_string());
    assert_eq!(second, Err(ShihonError::KickerCoinAlreadyKickedOff));
    let denial = process_deny_kicker_coin(&mut l, COORDINATOR, KICKER);
    assert_eq!(denial, Err(ShihonError::KickerCoinAlreadyKickedOff));
    assert!(l.kicker_coin_owner_records[0].is_kick_off);
}

#[test]
fn denial_removes_the_pending_record() {
    let mut l = new_ledger();
    process_draft_blank_check(&mut l, KICKER, "alpha".to_string(), MINT, 0).unwrap();
    process_create_bc_token(&mut l, KICKER, "alpha".to_string(), 1000, public_config()).unwrap();
    process_kick_to_coordinator(&mut l, KICKER, "alpha".to_string(), COORDINATOR, 500).unwrap();
    process_deny_kicker_coin(&mut l, COORDINATOR, KICKER).unwrap();
    assert_eq!(l.kicker_coin_owner_records.len(), 0);
    assert_eq!(l.tanistries.len(), 0);
    assert_eq!(l.bc_tokens[0].bc_token_state, BcTokenState::PublicOnTheGround);
}

#[test]
fn admission_accumulates_and_respects_the_cap() {
    let mut l = ledger_with_ring();
    process_candidate(&mut l, CANDIDATE_X, 0, MINT, 200).unwrap();
    assert_eq!(l.tanistries[0].holding_balance, 200);
    assert_eq!(get_tanistry_value(&l.tanistries[0]), 200);
    assert_eq!(
        l.tanistries[0].candidate_limit_record_list[0].number_of_candidate_count,
        0
    );

    let rejected = process_candidate(&mut l, CANDIDATE_Y, 0, MINT, 301);
    assert_eq!(rejected, Err(ShihonError::CandidateLimitExceeded));
    assert_eq!(l.tanistries[0].holding_balance, 200);
    assert_eq!(l.tanistries[0].candidate_limit_record_list.len(), 1);

    process_candidate(&mut l, CANDIDATE_Y, 0, MINT, 300).unwrap();
    assert_eq!(l.tanistries[0].holding_balance, 500);
    assert_eq!(
        l.tanistries[0].candidate_limit_record_list[1].number_of_candidate_count,
        1
    );
}

#[test]
fn admission_is_once_per_candidate() {
    let mut l = ledger_with_ring();
    process_candidate(&mut l, CANDIDATE_X, 0, MINT, 200).unwrap();
    let again = process_candidate(&mut l, CANDIDATE_X, 0, MINT, 100);
    assert_eq!(again, Err(ShihonError::CandidateAlreadyAdmitted));
    assert_eq!(l.tanistries[0].holding_balance, 200);
}

#[test]
fn bump_replaces_the_stake() {
    let mut l = ledger_with_ring();
    process_candidate(&mut l, CANDIDATE_X, 0, MINT, 200).unwrap();
    process_bump_self_rate(&mut l, CANDIDATE_X, 0, 450).unwrap();
    assert_eq!(
        l.tanistries[0].candidate_limit_record_list[0].candidate_token_deposit_amount,
        450
    );
    assert_eq!(l.tanistries[0].holding_balance, 450);

    let too_much = process_bump_self_rate(&mut l, CANDIDATE_X, 0, 501);
    assert_eq!(too_much, Err(ShihonError::CandidateLimitExceeded));
    assert_eq!(l.tanistries[0].holding_balance, 450);

    let stranger = process_bump_self_rate(&mut l, CANDIDATE_Y, 0, 10);
    assert_eq!(stranger, Err(ShihonError::CandidateLimitRecordNotFound));
}

#[test]
fn mix_and_rate_scenario() {
    let mut l = ledger_with_ring();
    process_candidate(&mut l, CANDIDATE_X, 0, MINT, 200).unwrap();
    process_candidate(&mut l, CANDIDATE_Y, 0, MINT, 300).unwrap();

    let order = l.tanistries[0].round_candidate_order();
    let rater = order[0];
    let buddy = order[1];
    process_mix_content(&mut l, rater, buddy, 0, "link1".to_string()).unwrap();
    assert_eq!(l.tanistries[0].mix_content_records.len(), 1);
    assert_eq!(
        l.tanistries[0].mix_content_records[0].option_mix_result,
        OptionMixResult::Unresolved
    );
    assert_eq!(l.bc_tokens[0].bc_token_state, BcTokenState::TanistrySetIn);

    let fingerprint_before = l.tanistries[0].building_fingerprint;
    process_rate_other(&mut l, rater, 0, 0, 50, 10).unwrap();
    assert_eq!(l.tanistries[0].rate_other_records.len(), 1);
    assert_eq!(l.tanistries[0].rate_other_records[0].rate_amount, 50);
    assert_eq!(
        l.tanistries[0].mix_content_records[0].option_mix_result,
        OptionMixResult::Succeeded
    );
    assert_eq!(l.tanistries[0].number_of_round, 1);
    assert_ne!(l.tanistries[0].building_fingerprint, fingerprint_before);
}

#[test]
fn fingerprint_is_reproducible_from_the_same_inputs() {
    let mut first = ledger_with_ring();
    let mut second = ledger_with_ring();
    for l in [&mut first, &mut second] {
        process_candidate(l, CANDIDATE_X, 0, MINT, 200).unwrap();
        process_candidate(l, CANDIDATE_Y, 0, MINT, 300).unwrap();
        let order = l.tanistries[0].round_candidate_order();
        let rater = order[0];
        let buddy = order[1];
        process_mix_content(l, rater, buddy, 0, "link1".to_string()).unwrap();
        process_rate_other(l, rater, 0, 0, 50, 10).unwrap();
    }
    assert_eq!(
        first.tanistries[0].building_fingerprint,
        second.tanistries[0].building_fingerprint
    );
    assert_eq!(first.tanistries[0].number_of_round, 1);
}

#[test]
fn rating_below_threshold_defeats_the_mix() {
    let mut l = ledger_with_ring();
    process_candidate(&mut l, CANDIDATE_X, 0, MINT, 200).unwrap();
    process_candidate(&mut l, CANDIDATE_Y, 0, MINT, 300).unwrap();
    let order = l.tanistries[0].round_candidate_order();
    process_mix_content(&mut l, order[0], order[1], 0, "link1".to_string()).unwrap();
    process_rate_other(&mut l, order[0], 0, 0, 49, 10).unwrap();
    assert_eq!(
        l.tanistries[0].mix_content_records[0].option_mix_result,
        OptionMixResult::Defeated
    );
}

#[test]
fn a_mix_is_rated_at_most_once() {
    let mut l = ledger_with_ring();
    process_candidate(&mut l, CANDIDATE_X, 0, MINT, 200).unwrap();
    process_candidate(&mut l, CANDIDATE_Y, 0, MINT, 300).unwrap();
    let order = l.tanistries[0].round_candidate_order();
    process_mix_content(&mut l, order[0], order[1], 0, "link1".to_string()).unwrap();
    process_rate_other(&mut l, order[0], 0, 0, 50, 10).unwrap();
    let again = process_rate_other(&mut l, order[0], 0, 0, 60, 11);
    assert_eq!(again, Err(ShihonError::MixContentAlreadyResolved));
    assert_eq!(l.tanistries[0].rate_other_records.len(), 1);
    assert_eq!(l.tanistries[0].number_of_round, 1);
}

#[test]
fn mix_rejects_wrong_pairs_and_duplicates() {
    let mut l = ledger_with_ring();
    process_candidate(&mut l, CANDIDATE_X, 0, MINT, 200).unwrap();
    process_candidate(&mut l, CANDIDATE_Y, 0, MINT, 300).unwrap();
    let order = l.tanistries[0].round_candidate_order();

    let selfish = process_mix_content(&mut l, order[0], order[0], 0, "x".to_string());
    assert_eq!(selfish, Err(ShihonError::InvalidMixPair));

    let swapped = process_mix_content(&mut l, order[1], order[0], 0, "x".to_string());
    assert_eq!(swapped, Err(ShihonError::InvalidMixPair));

    process_mix_content(&mut l, order[0], order[1], 0, "link1".to_string()).unwrap();
    let duplicate = process_mix_content(&mut l, order[0], order[1], 0, "link2".to_string());
    assert_eq!(duplicate, Err(ShihonError::MixContentRecordAlreadyExists));

    let outsider = process_mix_content(&mut l, order[0], 999, 0, "x".to_string());
    assert_eq!(outsider, Err(ShihonError::CandidateLimitRecordNotFound));
}

#[test]
fn rating_is_bounded_and_rater_only() {
    let mut l = ledger_with_ring();
    process_candidate(&mut l, CANDIDATE_X, 0, MINT, 200).unwrap();
    process_candidate(&mut l, CANDIDATE_Y, 0, MINT, 300).unwrap();
    let order = l.tanistries[0].round_candidate_order();
    process_mix_content(&mut l, order[0], order[1], 0, "link1".to_string()).unwrap();

    let buddy_rates = process_rate_other(&mut l, order[1], 0, 0, 50, 10);
    assert_eq!(buddy_rates, Err(ShihonError::RaterMustSign));

    let too_high = process_rate_other(&mut l, order[0], 0, 0, 1001, 10);
    assert_eq!(too_high, Err(ShihonError::RatingAboveCeiling));

    let missing = process_rate_other(&mut l, order[0], 0, 5, 50, 10);
    assert_eq!(missing, Err(ShihonError::MixContentRecordNotFound));
}

#[test]
fn holding_balance_matches_deposits_after_every_step() {
    let mut l = ledger_with_ring();
    process_candidate(&mut l, CANDIDATE_X, 0, MINT, 200).unwrap();
    assert_eq!(get_tanistry_value(&l.tanistries[0]), l.tanistries[0].holding_balance);
    process_candidate(&mut l, CANDIDATE_Y, 0, MINT, 300).unwrap();
    assert_eq!(get_tanistry_value(&l.tanistries[0]), l.tanistries[0].holding_balance);
    process_bump_self_rate(&mut l, CANDIDATE_X, 0, 100).unwrap();
    assert_eq!(get_tanistry_value(&l.tanistries[0]), l.tanistries[0].holding_balance);
}
