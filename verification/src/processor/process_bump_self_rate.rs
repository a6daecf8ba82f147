//! Bumping self rate: an admitted candidate replaces their stake.

use crate::candidate_limit_record::CandidateLimitRecord;
use crate::enums::BcTokenState;
use crate::error::ShihonError;
use crate::ledger::Ledger;
use crate::tanistry::Tanistry;
use crate::tanistry::lemma_sum_deposits_bounds;
use crate::tanistry::lemma_sum_deposits_update;
use vstd::prelude::*;

verus! {

/// Why bumping would fail: no such ring, a sealed ring, a ring whose token
/// is past the deposit window, a zero replacement, a caller without an
/// admission record — only the original depositor may bump — a stake that
/// would fall below an open resale listing, or a delta past the limit bar.
pub open spec fn spec_bump_self_rate_check(
    l: Ledger,
    signer: u64,
    tanistry: u64,
    amount: u64,
) -> Option<ShihonError> {
    if tanistry as int >= l.tanistries@.len() {
        Some(ShihonError::TanistryNotFound)
    } else {
        let ring = l.tanistries@[tanistry as int];
        if ring.is_sealed {
            Some(ShihonError::InvalidTanistryState)
        } else if !l.spec_has_token(ring.bc_token_name@) {
            Some(ShihonError::BcTokenNotFound)
        } else if !(l.bc_tokens@[l.spec_token_index(ring.bc_token_name@)].bc_token_state
            == BcTokenState::EnableToCandidate || l.bc_tokens@[l.spec_token_index(
            ring.bc_token_name@,
        )].bc_token_state == BcTokenState::TanistrySetIn) {
            Some(ShihonError::InvalidBcTokenState)
        } else if amount == 0 {
            Some(ShihonError::InvalidDepositAmount)
        } else if !ring.spec_is_candidate(signer) {
            Some(ShihonError::CandidateLimitRecordNotFound)
        } else if ring.spec_has_open_listing(signer)
            && amount < ring.outside_buyer_records@[ring.spec_open_listing_index(signer)].outside_buyer_token_deposit_amount {
            Some(ShihonError::StakeCommittedToSale)
        } else if ring.holding_balance
            - ring.candidate_limit_record_list@[ring.spec_candidate_index(signer)].candidate_token_deposit_amount
            + amount > ring.config.candidate_limit_bar {
            Some(ShihonError::CandidateLimitExceeded)
        } else {
            None
        }
    }
}

/// What bumping does: the candidate's recorded stake becomes the new
/// amount — a replacement, not an addition — and the holding custody moves
/// by exactly the delta; nothing else moves.
pub open spec fn spec_bump_self_rate_applied(
    old_l: Ledger,
    new_l: Ledger,
    signer: u64,
    tanistry: u64,
    amount: u64,
) -> bool {
    let t = tanistry as int;
    let r0 = old_l.tanistries@[t];
    let r1 = new_l.tanistries@[t];
    let ci = r0.spec_candidate_index(signer);
    let rec0 = r0.candidate_limit_record_list@[ci];
    &&& new_l.bc_tokens@ == old_l.bc_tokens@
    &&& new_l.kicker_coin_owner_records@ == old_l.kicker_coin_owner_records@
    &&& new_l.tanistries@.len() == old_l.tanistries@.len()
    &&& forall|j: int|
        0 <= j < old_l.tanistries@.len() && j != t ==> new_l.tanistries@[j]
            == old_l.tanistries@[j]
    &&& r1 == (Tanistry {
        candidate_limit_record_list: r1.candidate_limit_record_list,
        holding_balance: r1.holding_balance,
        ..r0
    })
    &&& r1.candidate_limit_record_list@ == r0.candidate_limit_record_list@.update(
        ci,
        CandidateLimitRecord { candidate_token_deposit_amount: amount, ..rec0 },
    )
    &&& r1.holding_balance == r0.holding_balance - rec0.candidate_token_deposit_amount + amount
}

/// Replaces an admitted candidate's stake: only the original depositor may,
/// the delta is re-validated against the limit bar, and the stake can never
/// drop below what an open resale listing commits.
#[verifier::rlimit(50)]
pub fn process_bump_self_rate(
    ledger: &mut Ledger,
    signer: u64,
    tanistry: u64,
    amount: u64,
) -> (r: Result<(), ShihonError>)
    requires
        old(ledger).wf(),
    ensures
        final(ledger).wf(),
        match spec_bump_self_rate_check(*old(ledger), signer, tanistry, amount) {
            Some(e) => r == Err::<(), ShihonError>(e) && *final(ledger) == *old(ledger),
            None => r == Ok::<(), ShihonError>(()) && spec_bump_self_rate_applied(
                *old(ledger),
                *final(ledger),
                signer,
                tanistry,
                amount,
            ),
        },
{
    if tanistry >= ledger.tanistries.len() as u64 {
        return Err(ShihonError::TanistryNotFound);
    }
    let t = tanistry as usize;
    if ledger.tanistries[t].is_sealed {
        return Err(ShihonError::InvalidTanistryState);
    }
    let token_name = ledger.tanistries[t].bc_token_name.clone();
    let tidx = match ledger.find_bc_token(&token_name) {
        Some(i) => i,
        None => {
            return Err(ShihonError::BcTokenNotFound);
        },
    };
    proof {
        ledger.lemma_token_index_unique(token_name@, tidx as int);
    }
    let state_ok: bool = match ledger.bc_tokens[tidx].bc_token_state {
        BcTokenState::EnableToCandidate => true,
        BcTokenState::TanistrySetIn => true,
        _ => false,
    };
    if !state_ok {
        return Err(ShihonError::InvalidBcTokenState);
    }
    if amount == 0 {
        return Err(ShihonError::InvalidDepositAmount);
    }
    let ci = match ledger.tanistries[t].find_candidate(signer) {
        Some(i) => i,
        None => {
            return Err(ShihonError::CandidateLimitRecordNotFound);
        },
    };
    proof {
        ledger.tanistries@[t as int].lemma_candidate_index_unique(signer, ci as int);
    }
    match ledger.tanistries[t].find_open_listing(signer) {
        Some(li) => {
            proof {
                ledger.tanistries@[t as int].lemma_open_listing_unique(signer, li as int);
            }
            if amount
                < ledger.tanistries[t].outside_buyer_records[li].outside_buyer_token_deposit_amount {
                return Err(ShihonError::StakeCommittedToSale);
            }
        },
        None => (),
    }
    let old_amount =
        ledger.tanistries[t].candidate_limit_record_list[ci].candidate_token_deposit_amount;
    proof {
        lemma_sum_deposits_bounds(
            ledger.tanistries@[t as int].candidate_limit_record_list@,
            ci as int,
        );
    }
    let base = ledger.tanistries[t].holding_balance - old_amount;
    let new_holding = match base.checked_add(amount) {
        Some(s) => {
            if s > ledger.tanistries[t].config.candidate_limit_bar {
                return Err(ShihonError::CandidateLimitExceeded);
            }
            s
        },
        None => {
            return Err(ShihonError::CandidateLimitExceeded);
        },
    };
    let ghost rec0 = ledger.tanistries@[t as int].candidate_limit_record_list@[ci as int];
    ledger.tanistries[t].candidate_limit_record_list[ci].candidate_token_deposit_amount = amount;
    ledger.tanistries[t].holding_balance = new_holding;
    proof {
        let r0 = old(ledger).tanistries@[t as int];
        let r1 = ledger.tanistries@[t as int];
        assert(r1.candidate_limit_record_list@ =~= r0.candidate_limit_record_list@.update(
            ci as int,
            CandidateLimitRecord { candidate_token_deposit_amount: amount, ..rec0 },
        ));
        lemma_sum_deposits_update(
            r0.candidate_limit_record_list@,
            ci as int,
            CandidateLimitRecord { candidate_token_deposit_amount: amount, ..rec0 },
        );
        assert forall|w: u64| r0.spec_is_candidate(w) implies r1.spec_is_candidate(w) by {
            let i = choose|i: int|
                0 <= i < r0.candidate_limit_record_list@.len()
                    && r0.candidate_limit_record_list@[i].candidate_token_owner == w;
            assert(r1.candidate_limit_record_list@[i].candidate_token_owner == w);
        }
        assert(r1.wf_candidates());
        assert(r1.wf_mixes());
        assert(r1.wf_rates());
        assert(r1.wf_fingerprint());
        assert(r1.wf_listings());
        assert(r1.wf_votes());
        assert(ledger.wf());
    }
    Ok(())
}

} // verus!
