//! Registry edges, the dispatcher, option validators and record methods.

use shihon::bc_token::{
    assert_valid_bc_token_config_args, get_self_rate_value, BcToken, BcTokenConfigArgs,
    MintMaxVoteWeightSource, SUPPLY_FRACTION_BASE,
};
use shihon::bc_token_metadata::{BcTokenMetadata, ContentType};
use shihon::enums::{BcTokenState, ShihonAccountType, VoteSource};
use shihon::error::ShihonError;
use shihon::instruction::{
    approve_kicker_coin, bump_self_rate, buy_exceeded_rate_token, candidate, create_bc_token,
    crowning, deny_kicker_coin, discard_bc_token, draft_blank_check, kicking_to_coordinator,
    mix_content, rate_content, sell_exceeded_rate_token, vote_for_cc, ShihonInstruction,
};
use shihon::cc_vote_record::{CCVoteRecord, Vote};
use shihon::kicker_coin_owner_record::KickerCoinOwnerRecord;
use shihon::candidate_limit_record::CandidateLimitRecord;
use shihon::ledger::new_ledger;
use shihon::mix_content_record::{assert_valid_rate_options, RateType};
use shihon::processor::{
    process_create_bc_token, process_discard_bc_token, process_draft_blank_check,
    process_instruction, process_kick_to_coordinator,
};
use shihon::rate::{
    assert_valid_proposal_options, get_min_vote_threshold_weight, VoteThresholdPercentage,
    VoteType,
};

const OWNER: u64 = 100;
const OTHER: u64 = 200;
const MINT: u64 = 1;

fn public_config() -> BcTokenMetadata {
    BcTokenMetadata {
        account_type: ShihonAccountType::BcTokenMetadata,
        content_type: ContentType::Ordinary,
        content_fingerprint: 42,
        updated_at: 1,
        version: "1".to_string(),
        is_public: true,
    }
}

fn private_config() -> BcTokenMetadata {
    BcTokenMetadata { is_public: false, ..public_config() }
}

#[test]
fn drafting_rejects_empty_and_duplicate_names() {
    let mut l = new_ledger();
    let empty = process_draft_blank_check(&mut l, OWNER, "".to_string(), MINT, 0);
    assert_eq!(empty, Err(ShihonError::InvalidBcTokenName));
    process_draft_blank_check(&mut l, OWNER, "alpha".to_string(), MINT, 0).unwrap();
    let duplicate = process_draft_blank_check(&mut l, OTHER, "alpha".to_string(), MINT, 0);
    assert_eq!(duplicate, Err(ShihonError::BcTokenAlreadyExists));
    assert_eq!(l.bc_tokens.len(), 1);
}

#[test]
fn publishing_needs_the_token_and_its_owner() {
    let mut l = new_ledger();
    let missing = process_create_bc_token(&mut l, OWNER, "alpha".to_string(), 10, public_config());
    assert_eq!(missing, Err(ShihonError::BcTokenNotFound));
    process_draft_blank_check(&mut l, OWNER, "alpha".to_string(), MINT, 0).unwrap();
    let stranger = process_create_bc_token(&mut l, OTHER, "alpha".to_string(), 10, public_config());
    assert_eq!(stranger, Err(ShihonError::InvalidAuthorityForBcToken));
}

#[test]
fn publishing_privately_then_publicly_moves_forward_only() {
    let mut l = new_ledger();
    process_draft_blank_check(&mut l, OWNER, "alpha".to_string(), MINT, 0).unwrap();
    process_create_bc_token(&mut l, OWNER, "alpha".to_string(), 10, private_config()).unwrap();
    assert_eq!(l.bc_tokens[0].bc_token_state, BcTokenState::HoldingOnPrivate);
    let private_again = process_create_bc_token(&mut l, OWNER, "alpha".to_string(), 10, private_config());
    assert_eq!(private_again, Err(ShihonError::InvalidBcTokenState));
    process_create_bc_token(&mut l, OWNER, "alpha".to_string(), 20, public_config()).unwrap();
    assert_eq!(l.bc_tokens[0].bc_token_state, BcTokenState::PublicOnTheGround);
    let public_again = process_create_bc_token(&mut l, OWNER, "alpha".to_string(), 30, public_config());
    assert_eq!(public_again, Err(ShihonError::InvalidBcTokenState));
}

#[test]
fn discarding_is_legal_only_before_public_ground() {
    let mut l = new_ledger();
    process_draft_blank_check(&mut l, OWNER, "alpha".to_string(), MINT, 0).unwrap();
    process_create_bc_token(&mut l, OWNER, "alpha".to_string(), 10, public_config()).unwrap();
    let late = process_discard_bc_token(&mut l, OWNER, "alpha".to_string());
    assert_eq!(late, Err(ShihonError::InvalidBcTokenState));

    process_draft_blank_check(&mut l, OWNER, "beta".to_string(), MINT, 0).unwrap();
    process_discard_bc_token(&mut l, OWNER, "beta".to_string()).unwrap();
    assert_eq!(l.bc_tokens[1].bc_token_state, BcTokenState::Cancelled);
}

#[test]
fn kicking_rejects_self_and_non_public_tokens() {
    let mut l = new_ledger();
    process_draft_blank_check(&mut l, OWNER, "alpha".to_string(), MINT, 0).unwrap();
    let selfish = process_kick_to_coordinator(&mut l, OWNER, "alpha".to_string(), OWNER, 10);
    assert_eq!(selfish, Err(ShihonError::InvalidInstruction));
    let drafted = process_kick_to_coordinator(&mut l, OWNER, "alpha".to_string(), OTHER, 10);
    assert_eq!(drafted, Err(ShihonError::InvalidBcTokenState));
    process_create_bc_token(&mut l, OWNER, "alpha".to_string(), 10, public_config()).unwrap();
    process_kick_to_coordinator(&mut l, OWNER, "alpha".to_string(), OTHER, 10).unwrap();
    let twice = process_kick_to_coordinator(&mut l, OWNER, "alpha".to_string(), OTHER, 10);
    assert_eq!(twice, Err(ShihonError::KickerCoinOwnerRecordAlreadyExists));
}

#[test]
fn dispatcher_routes_and_demands_signers() {
    let mut l = new_ledger();
    let no_signers: Vec<u64> = vec![];
    let refused = process_instruction(
        &mut l,
        &no_signers,
        0,
        draft_blank_check("alpha".to_string(), MINT),
    );
    assert_eq!(refused, Err(ShihonError::InvalidInstruction));

    let signers = vec![OWNER];
    process_instruction(&mut l, &signers, 0, draft_blank_check("alpha".to_string(), MINT))
        .unwrap();
    process_instruction(
        &mut l,
        &signers,
        0,
        create_bc_token("alpha".to_string(), 10, public_config()),
    )
    .unwrap();
    process_instruction(
        &mut l,
        &signers,
        0,
        kicking_to_coordinator("alpha".to_string(), OTHER, 10),
    )
    .unwrap();
    let coordinator_signs = vec![OTHER];
    process_instruction(
        &mut l,
        &coordinator_signs,
        0,
        approve_kicker_coin(OWNER, "go".to_string()),
    )
    .unwrap();
    assert_eq!(l.tanistries.len(), 1);

    let one_signer_mix = process_instruction(
        &mut l,
        &signers,
        0,
        mix_content(0, "link".to_string()),
    );
    assert_eq!(one_signer_mix, Err(ShihonError::InvalidInstruction));
}

#[test]
fn instruction_builders_carry_their_payloads() {
    assert!(matches!(
        discard_bc_token("a".to_string()),
        ShihonInstruction::DiscardBcToken { .. }
    ));
    assert!(matches!(deny_kicker_coin(5), ShihonInstruction::DenyKickerCoin { kicker: 5 }));
    assert!(matches!(
        candidate(1, 2, 3),
        ShihonInstruction::Candidate { tanistry: 1, candidate_token_mint: 2, amount: 3 }
    ));
    assert!(matches!(
        rate_content(1, 2, 3),
        ShihonInstruction::RateOtherContent { tanistry: 1, mix_record: 2, rating: 3 }
    ));
    assert!(matches!(
        bump_self_rate(1, 2),
        ShihonInstruction::BumpSelfRate { tanistry: 1, amount: 2 }
    ));
    assert!(matches!(
        sell_exceeded_rate_token(1, 2, 3),
        ShihonInstruction::SellExceededRateToken {
            tanistry: 1,
            outside_buyer_token_mint: 2,
            amount: 3
        }
    ));
    assert!(matches!(
        buy_exceeded_rate_token(1, 2, 3, 4),
        ShihonInstruction::BuyExceededRateToken { tanistry: 1, seller: 2, token: 3, amount: 4 }
    ));
    assert!(matches!(crowning(1, 2), ShihonInstruction::Crowning { tanistry: 1, crown: 2 }));
    assert!(matches!(
        vote_for_cc(1, Vote::Push, 2),
        ShihonInstruction::VoteForCC { tanistry: 1, counting_time: 2, .. }
    ));
}

#[test]
fn rate_options_must_fit_the_rate_type() {
    let empty: Vec<String> = vec![];
    assert_eq!(
        assert_valid_rate_options(&empty, &RateType::SingleChoice),
        Err(ShihonError::InvalidProposalOptions)
    );
    let one = vec!["yes".to_string()];
    assert_eq!(assert_valid_rate_options(&one, &RateType::SingleChoice), Ok(()));
    assert_eq!(
        assert_valid_rate_options(&one, &RateType::MultiChoice(1)),
        Err(ShihonError::InvalidProposalOptions)
    );
    let two = vec!["yes".to_string(), "no".to_string()];
    assert_eq!(assert_valid_rate_options(&two, &RateType::MultiChoice(2)), Ok(()));
    assert_eq!(
        assert_valid_rate_options(&two, &RateType::MultiChoice(3)),
        Err(ShihonError::InvalidProposalOptions)
    );
    let blank = vec!["yes".to_string(), "".to_string()];
    assert_eq!(
        assert_valid_rate_options(&blank, &RateType::MultiChoice(2)),
        Err(ShihonError::InvalidProposalOptions)
    );
}

#[test]
fn proposal_options_must_fit_the_vote_type() {
    let two = vec!["yes".to_string(), "no".to_string()];
    assert_eq!(assert_valid_proposal_options(&two, &VoteType::SingleChoice), Ok(()));
    assert_eq!(assert_valid_proposal_options(&two, &VoteType::MultiChoice(2)), Ok(()));
    let blank = vec!["".to_string()];
    assert_eq!(
        assert_valid_proposal_options(&blank, &VoteType::SingleChoice),
        Err(ShihonError::InvalidProposalOptions)
    );
}

#[test]
fn min_vote_threshold_weight_rounds_up() {
    assert_eq!(
        get_min_vote_threshold_weight(&VoteThresholdPercentage::YesVote(60), 100),
        Ok(60)
    );
    assert_eq!(
        get_min_vote_threshold_weight(&VoteThresholdPercentage::YesVote(33), 10),
        Ok(4)
    );
    assert_eq!(get_min_vote_threshold_weight(&VoteThresholdPercentage::YesVote(1), 1), Ok(1));
    assert_eq!(get_min_vote_threshold_weight(&VoteThresholdPercentage::YesVote(0), 77), Ok(0));
    // Percentages above one hundred are accepted; the ceiling is reduced to
    // the word size exactly as the wire carries it.
    assert_eq!(
        get_min_vote_threshold_weight(&VoteThresholdPercentage::YesVote(200), 10),
        Ok(20)
    );
    let expected = ((255u128 * u64::MAX as u128 + 99) / 100) as u64;
    assert_eq!(
        get_min_vote_threshold_weight(&VoteThresholdPercentage::YesVote(255), u64::MAX),
        Ok(expected)
    );
    assert_eq!(
        get_min_vote_threshold_weight(&VoteThresholdPercentage::Quorum(50), 100),
        Err(ShihonError::VoteThresholdPercentageTypeNotSupported)
    );
}

#[test]
fn config_args_accept_only_bounded_supply_fractions() {
    let good = BcTokenConfigArgs {
        use_bc_token_authority: true,
        community_mint_max_vote_weight_source: MintMaxVoteWeightSource::SupplyFraction(
            SUPPLY_FRACTION_BASE,
        ),
    };
    assert_eq!(assert_valid_bc_token_config_args(&good), Ok(()));
    let zero = BcTokenConfigArgs {
        use_bc_token_authority: true,
        community_mint_max_vote_weight_source: MintMaxVoteWeightSource::SupplyFraction(0),
    };
    assert_eq!(
        assert_valid_bc_token_config_args(&zero),
        Err(ShihonError::InvalidMaxVoteWeightSupplyFraction)
    );
    let too_big = BcTokenConfigArgs {
        use_bc_token_authority: true,
        community_mint_max_vote_weight_source: MintMaxVoteWeightSource::SupplyFraction(
            SUPPLY_FRACTION_BASE + 1,
        ),
    };
    assert_eq!(
        assert_valid_bc_token_config_args(&too_big),
        Err(ShihonError::InvalidMaxVoteWeightSupplyFraction)
    );
    let absolute = BcTokenConfigArgs {
        use_bc_token_authority: true,
        community_mint_max_vote_weight_source: MintMaxVoteWeightSource::Absolute(5),
    };
    assert_eq!(
        assert_valid_bc_token_config_args(&absolute),
        Err(ShihonError::MintMaxVoteWeightSourceNotSupported)
    );
}

#[test]
fn record_methods_report_their_state() {
    let token = BcToken {
        account_type: ShihonAccountType::BcToken,
        bc_token_owner_pubkey: OWNER,
        amount_of_coin: 77,
        issue_at: 0,
        authority: None,
        name: "alpha".to_string(),
        bc_token_mint: MINT,
        bc_token_state: BcTokenState::DraftBlankCheck,
        config: public_config(),
    };
    assert!(token.is_initialized());
    assert_eq!(get_self_rate_value(&token), 77);
    assert_eq!(token.assert_is_valid_bc_token_mint(MINT), Ok(()));
    assert_eq!(
        token.assert_is_valid_bc_token_mint(MINT + 1),
        Err(ShihonError::InvalidBcTokenMint)
    );

    let escrow = KickerCoinOwnerRecord {
        account_type: ShihonAccountType::KickerCoinOwnerRecord,
        kicker_coin_holder: OWNER,
        coordinator: OTHER,
        amount_of_kicker_coin: 10,
        bc_token_name: "alpha".to_string(),
        is_kick_off: false,
    };
    assert!(escrow.is_initialized());
    assert_eq!(escrow.assert_can_kick_off(OWNER), Ok(()));
    assert_eq!(
        escrow.assert_can_kick_off(OTHER),
        Err(ShihonError::KickerCoinHolderMustSign)
    );
    assert_eq!(escrow.assert_can_remove_kicker_coin_owner(), Ok(()));
    let accepted = KickerCoinOwnerRecord { is_kick_off: true, ..escrow };
    assert_eq!(
        accepted.assert_can_kick_off(OWNER),
        Err(ShihonError::KickerCoinAlreadyKickedOff)
    );
    assert_eq!(
        accepted.assert_can_remove_kicker_coin_owner(),
        Err(ShihonError::KickerCoinAlreadyKickedOff)
    );

    let admission = CandidateLimitRecord {
        account_type: ShihonAccountType::CandidateLimitRecord,
        belonging_tanistry: 0,
        number_of_candidate_count: 0,
        candidate_token_mint: MINT,
        candidate_token_owner: OWNER,
        candidate_token_deposit_amount: 5,
    };
    assert!(admission.is_initialized());
    assert_eq!(admission.assert_token_owner_or_delegate_is_signer(OWNER), Ok(()));
    assert_eq!(
        admission.assert_token_owner_or_delegate_is_signer(OTHER),
        Err(ShihonError::CandidateTokenOwnerMustSign)
    );

    let vote = CCVoteRecord {
        account_type: ShihonAccountType::CCVoteRecord,
        governing_token_owner: OWNER,
        counting_time: 1,
        is_relinquished: false,
        voter_weight: 9,
        vote: Vote::Push,
    };
    assert!(vote.is_initialized());
    assert_eq!(vote.assert_can_relinquish_vote(), Ok(()));
    let relinquished = CCVoteRecord { is_relinquished: true, ..vote };
    assert_eq!(
        relinquished.assert_can_relinquish_vote(),
        Err(ShihonError::VoteAlreadyRelinquished)
    );

    assert_eq!(ShihonAccountType::default(), ShihonAccountType::Uninitialized);
    assert_eq!(BcTokenState::default(), BcTokenState::DraftBlankCheck);
    assert_ne!(VoteSource::Transit, VoteSource::Snapshot);
}
