//! Record encoding: lossless round trips with trailing bytes ignored.

use shihon::bc_token::BcToken;
use shihon::bc_token_metadata::{BcTokenMetadata, ContentType};
use shihon::candidate_limit_record::CandidateLimitRecord;
use shihon::cc_vote_record::{CCVoteChoice, CCVoteRecord, Vote};
use shihon::enums::{BcTokenState, ShihonAccountType};
use shihon::kicker_coin_owner_record::KickerCoinOwnerRecord;
use shihon::ledger::new_ledger;
use shihon::mix_content_record::{MixContentRecord, OptionMixResult};
use shihon::outside_buyer_record::OutsideBuyerRecord;
use shihon::processor::{
    process_approve_kicker_coin, process_create_bc_token, process_draft_blank_check,
    process_kick_to_coordinator,
};
use shihon::rate_other_record::RateOtherRecord;
use shihon::serialization::{
    get_bc_token_data, get_candidate_limit_record_data, get_cc_vote_record_data,
    get_kicker_coin_owner_record_data, get_mix_content_record_data,
    get_outside_buyer_token_owner_record_data, get_rate_other_record_data, get_tanistry_data,
    serialize_bc_token, serialize_candidate_limit_record, serialize_kicker_coin_owner_record,
    serialize_mix_content_record, serialize_outside_buyer_record, serialize_rate_other_record,
};
use shihon::tanistry::Tanistry;

#[test]
fn kicker_coin_owner_record_round_trips() {
    let rec = KickerCoinOwnerRecord {
        account_type: ShihonAccountType::KickerCoinOwnerRecord,
        kicker_coin_holder: 7,
        coordinator: 9,
        amount_of_kicker_coin: 500,
        bc_token_name: "alpha".to_string(),
        is_kick_off: true,
    };
    let mut bytes: Vec<u8> = Vec::new();
    serialize_kicker_coin_owner_record(&rec, &mut bytes);
    // Trailing reserved bytes must be ignored.
    bytes.push(0xAA);
    bytes.push(0xBB);
    let (back, end) = get_kicker_coin_owner_record_data(&bytes, 0).unwrap();
    assert_eq!(end, bytes.len() - 2);
    assert_eq!(back.account_type, rec.account_type);
    assert_eq!(back.kicker_coin_holder, 7);
    assert_eq!(back.coordinator, 9);
    assert_eq!(back.amount_of_kicker_coin, 500);
    assert_eq!(back.bc_token_name, "alpha");
    assert!(back.is_kick_off);
}

#[test]
fn candidate_limit_record_round_trips() {
    let rec = CandidateLimitRecord {
        account_type: ShihonAccountType::CandidateLimitRecord,
        belonging_tanistry: 3,
        number_of_candidate_count: 11,
        candidate_token_mint: 1,
        candidate_token_owner: 300,
        candidate_token_deposit_amount: 200,
    };
    let mut bytes: Vec<u8> = Vec::new();
    serialize_candidate_limit_record(&rec, &mut bytes);
    let (back, end) = get_candidate_limit_record_data(&bytes, 0).unwrap();
    assert_eq!(end, bytes.len());
    assert_eq!(back.account_type, rec.account_type);
    assert_eq!(back.belonging_tanistry, 3);
    assert_eq!(back.number_of_candidate_count, 11);
    assert_eq!(back.candidate_token_mint, 1);
    assert_eq!(back.candidate_token_owner, 300);
    assert_eq!(back.candidate_token_deposit_amount, 200);
}

#[test]
fn mix_content_record_round_trips() {
    let rec = MixContentRecord {
        account_type: ShihonAccountType::MixContentRecord,
        encrypted_link: "link1".to_string(),
        rater_candidate: 300,
        buddy_candidate: 400,
        option_mix_result: OptionMixResult::Succeeded,
        round: 2,
        finger_print_of_mixed_content: 0xDEADBEEF,
    };
    let mut bytes: Vec<u8> = Vec::new();
    serialize_mix_content_record(&rec, &mut bytes);
    let (back, end) = get_mix_content_record_data(&bytes, 0).unwrap();
    assert_eq!(end, bytes.len());
    assert_eq!(back.encrypted_link, "link1");
    assert_eq!(back.rater_candidate, 300);
    assert_eq!(back.buddy_candidate, 400);
    assert_eq!(back.option_mix_result, OptionMixResult::Succeeded);
    assert_eq!(back.round, 2);
    assert_eq!(back.finger_print_of_mixed_content, 0xDEADBEEF);
}

#[test]
fn rate_other_record_round_trips_with_negative_time() {
    let rec = RateOtherRecord {
        account_type: ShihonAccountType::RateOtherRecord,
        mix_content_record: 4,
        rate_amount: 50,
        rating_time: Some(-17),
    };
    let mut bytes: Vec<u8> = Vec::new();
    serialize_rate_other_record(&rec, &mut bytes);
    let (back, end) = get_rate_other_record_data(&bytes, 0).unwrap();
    assert_eq!(end, bytes.len());
    assert_eq!(back.account_type, rec.account_type);
    assert_eq!(back.mix_content_record, 4);
    assert_eq!(back.rate_amount, 50);
    assert_eq!(back.rating_time, Some(-17));
}

#[test]
fn outside_buyer_record_round_trips() {
    let rec = OutsideBuyerRecord {
        account_type: ShihonAccountType::OutsideBuyerRecord,
        tanistry: 0,
        seller: 400,
        outside_buyer_token_mint: 1,
        outside_buyer_token_owner: Some(900),
        outside_buyer_token_deposit_amount: 30,
        deadline: 86400,
        is_open: false,
    };
    let mut bytes: Vec<u8> = Vec::new();
    serialize_outside_buyer_record(&rec, &mut bytes);
    let (back, end) = get_outside_buyer_token_owner_record_data(&bytes, 0).unwrap();
    assert_eq!(end, bytes.len());
    assert_eq!(back.account_type, rec.account_type);
    assert_eq!(back.tanistry, 0);
    assert_eq!(back.seller, 400);
    assert_eq!(back.outside_buyer_token_mint, 1);
    assert_eq!(back.outside_buyer_token_owner, Some(900));
    assert_eq!(back.outside_buyer_token_deposit_amount, 30);
    assert_eq!(back.deadline, 86400);
    assert!(!back.is_open);
}

#[test]
fn cc_vote_record_round_trips_with_choices() {
    let rec = CCVoteRecord {
        account_type: ShihonAccountType::CCVoteRecord,
        governing_token_owner: 300,
        counting_time: 77,
        is_relinquished: false,
        voter_weight: 250,
        vote: Vote::Pull(vec![
            CCVoteChoice { challenger_ring: 0, target_ring: Some(1) },
            CCVoteChoice { challenger_ring: 2, target_ring: None },
        ]),
    };
    let mut bytes: Vec<u8> = Vec::new();
    rec.serialize(&mut bytes);
    let (back, end) = get_cc_vote_record_data(&bytes, 0).unwrap();
    assert_eq!(end, bytes.len());
    assert_eq!(back.governing_token_owner, 300);
    assert_eq!(back.counting_time, 77);
    assert!(!back.is_relinquished);
    assert_eq!(back.voter_weight, 250);
    match back.vote {
        Vote::Pull(choices) => {
            assert_eq!(choices.len(), 2);
            assert_eq!(choices[0], CCVoteChoice { challenger_ring: 0, target_ring: Some(1) });
            assert_eq!(choices[1], CCVoteChoice { challenger_ring: 2, target_ring: None });
        },
        Vote::Push => panic!("expected a pull vote"),
    }
}

#[test]
fn push_vote_round_trips() {
    let rec = CCVoteRecord {
        account_type: ShihonAccountType::CCVoteRecord,
        governing_token_owner: 1,
        counting_time: 2,
        is_relinquished: true,
        voter_weight: 3,
        vote: Vote::Push,
    };
    let mut bytes: Vec<u8> = Vec::new();
    rec.serialize(&mut bytes);
    let (back, _end) = get_cc_vote_record_data(&bytes, 0).unwrap();
    assert!(matches!(back.vote, Vote::Push));
}

#[test]
fn bc_token_round_trips() {
    let token = BcToken {
        account_type: ShihonAccountType::BcToken,
        bc_token_owner_pubkey: 100,
        amount_of_coin: 1000,
        issue_at: -5,
        authority: Some(42),
        name: "alpha".to_string(),
        bc_token_mint: 1,
        bc_token_state: BcTokenState::PublicOnTheGround,
        config: BcTokenMetadata {
            account_type: ShihonAccountType::BcTokenMetadata,
            content_type: ContentType::Partially,
            content_fingerprint: 42,
            updated_at: 9,
            version: "1".to_string(),
            is_public: true,
        },
    };
    let mut bytes: Vec<u8> = Vec::new();
    serialize_bc_token(&token, &mut bytes);
    bytes.push(0xFF);
    let (back, end) = get_bc_token_data(&bytes, 0).unwrap();
    assert_eq!(end, bytes.len() - 1);
    assert_eq!(back.bc_token_owner_pubkey, 100);
    assert_eq!(back.amount_of_coin, 1000);
    assert_eq!(back.issue_at, -5);
    assert_eq!(back.authority, Some(42));
    assert_eq!(back.name, "alpha");
    assert_eq!(back.bc_token_state, BcTokenState::PublicOnTheGround);
    assert_eq!(back.config.content_type, ContentType::Partially);
    assert_eq!(back.config.version, "1");
    assert!(back.config.is_public);
}

#[test]
fn foreign_type_tags_are_refused() {
    // Bytes of one record kind must not decode as another.
    let admission = CandidateLimitRecord {
        account_type: ShihonAccountType::CandidateLimitRecord,
        belonging_tanistry: 3,
        number_of_candidate_count: 11,
        candidate_token_mint: 1,
        candidate_token_owner: 300,
        candidate_token_deposit_amount: 200,
    };
    let mut bytes: Vec<u8> = Vec::new();
    serialize_candidate_limit_record(&admission, &mut bytes);
    assert!(get_kicker_coin_owner_record_data(&bytes, 0).is_none());
    assert!(get_rate_other_record_data(&bytes, 0).is_none());
    assert!(get_bc_token_data(&bytes, 0).is_none());
    // An unknown discriminator is refused outright.
    let mut unknown = bytes.clone();
    unknown[0] = 99;
    assert!(get_candidate_limit_record_data(&unknown, 0).is_none());
}

#[test]
fn truncated_input_is_refused() {
    let rec = CandidateLimitRecord {
        account_type: ShihonAccountType::CandidateLimitRecord,
        belonging_tanistry: 3,
        number_of_candidate_count: 11,
        candidate_token_mint: 1,
        candidate_token_owner: 300,
        candidate_token_deposit_amount: 200,
    };
    let mut bytes: Vec<u8> = Vec::new();
    serialize_candidate_limit_record(&rec, &mut bytes);
    bytes.truncate(bytes.len() - 1);
    assert!(get_candidate_limit_record_data(&bytes, 0).is_none());
    assert!(get_candidate_limit_record_data(&[], 0).is_none());
}

#[test]
fn tanistry_header_round_trips() {
    let config = BcTokenMetadata {
        account_type: ShihonAccountType::BcTokenMetadata,
        content_type: ContentType::Ordinary,
        content_fingerprint: 42,
        updated_at: 1,
        version: "1".to_string(),
        is_public: true,
    };
    let mut l = new_ledger();
    process_draft_blank_check(&mut l, 100, "alpha".to_string(), 1, 0).unwrap();
    process_create_bc_token(&mut l, 100, "alpha".to_string(), 1000, config).unwrap();
    process_kick_to_coordinator(&mut l, 100, "alpha".to_string(), 200, 500).unwrap();
    process_approve_kicker_coin(&mut l, 200, 100, "go".to_string()).unwrap();

    let ring = &l.tanistries[0];
    let mut bytes: Vec<u8> = Vec::new();
    ring.pack_into_slice(&mut bytes);
    let (back, counts, end) = Tanistry::unpack_from_slice(&bytes, 0).unwrap();
    assert_eq!(end, bytes.len());
    assert_eq!(back.bc_token_name, "alpha");
    assert_eq!(back.kicker_coin_holder, 100);
    assert_eq!(back.coordinator, 200);
    assert_eq!(back.coordinator_input, "go");
    assert_eq!(back.config, ring.config);
    assert_eq!(back.number_of_round, 0);
    assert_eq!(back.building_fingerprint, ring.building_fingerprint);
    assert_eq!(back.holding_balance, 0);
    assert_eq!(back.crown, None);
    assert!(!back.is_sealed);
    assert_eq!(counts, (0, 0, 0, 0, 0));
    // Same bytes via the arena accessor.
    let (again, _counts, _end) = get_tanistry_data(&bytes, 0).unwrap();
    assert_eq!(again.building_fingerprint, ring.building_fingerprint);
}
