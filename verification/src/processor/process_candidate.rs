//! Candidate admission: depositing stake into an open ring under the
//! limit bar.

use crate::candidate_limit_record::CandidateLimitRecord;
use crate::enums::BcTokenState;
use crate::enums::ShihonAccountType;
use crate::error::ShihonError;
use crate::ledger::Ledger;
use crate::tanistry::Tanistry;
use crate::tanistry::lemma_sum_deposits_push;
use vstd::prelude::*;

verus! {

/// Why admission would fail: no such ring, a sealed ring, a ring whose
/// token is past the candidate window, a zero deposit, a candidate already
/// admitted, or a deposit that would push the ring past its limit bar.
pub open spec fn spec_candidate_check(
    l: Ledger,
    signer: u64,
    tanistry: u64,
    amount: u64,
) -> Option<ShihonError> {
    if tanistry as int >= l.tanistries@.len() {
        Some(ShihonError::TanistryNotFound)
    } else {
        let ring = l.tanistries@[tanistry as int];
        if ring.is_sealed {
            Some(ShihonError::InvalidTanistryState)
        } else if !l.spec_has_token(ring.bc_token_name@) {
            Some(ShihonError::BcTokenNotFound)
        } else if !(l.bc_tokens@[l.spec_token_index(ring.bc_token_name@)].bc_token_state
            == BcTokenState::EnableToCandidate || l.bc_tokens@[l.spec_token_index(
            ring.bc_token_name@,
        )].bc_token_state == BcTokenState::TanistrySetIn) {
            Some(ShihonError::InvalidBcTokenState)
        } else if amount == 0 {
            Some(ShihonError::InvalidDepositAmount)
        } else if ring.spec_is_candidate(signer) {
            Some(ShihonError::CandidateAlreadyAdmitted)
        } else if ring.candidate_limit_record_list@.len() >= u32::MAX {
            Some(ShihonError::CandidateLimitExceeded)
        } else if ring.holding_balance + amount > ring.config.candidate_limit_bar {
            Some(ShihonError::CandidateLimitExceeded)
        } else {
            None
        }
    }
}

/// What admission does: the ring appends one admission record carrying the
/// next sequence number and takes the deposit into its holding custody;
/// nothing else moves.
pub open spec fn spec_candidate_applied(
    old_l: Ledger,
    new_l: Ledger,
    signer: u64,
    tanistry: u64,
    candidate_token_mint: u64,
    amount: u64,
) -> bool {
    let t = tanistry as int;
    let r0 = old_l.tanistries@[t];
    let r1 = new_l.tanistries@[t];
    &&& new_l.bc_tokens@ == old_l.bc_tokens@
    &&& new_l.kicker_coin_owner_records@ == old_l.kicker_coin_owner_records@
    &&& new_l.tanistries@.len() == old_l.tanistries@.len()
    &&& forall|j: int|
        0 <= j < old_l.tanistries@.len() && j != t ==> new_l.tanistries@[j]
            == old_l.tanistries@[j]
    &&& r1 == (Tanistry {
        candidate_limit_record_list: r1.candidate_limit_record_list,
        holding_balance: r1.holding_balance,
        ..r0
    })
    &&& r1.holding_balance == r0.holding_balance + amount
    &&& r1.candidate_limit_record_list@.len() == r0.candidate_limit_record_list@.len() + 1
    &&& r1.candidate_limit_record_list@.subrange(
        0,
        r0.candidate_limit_record_list@.len() as int,
    ) == r0.candidate_limit_record_list@
    &&& {
        let rec = r1.candidate_limit_record_list@.last();
        &&& rec.account_type == ShihonAccountType::CandidateLimitRecord
        &&& rec.belonging_tanistry == tanistry
        &&& rec.number_of_candidate_count == r0.candidate_limit_record_list@.len()
        &&& rec.candidate_token_mint == candidate_token_mint
        &&& rec.candidate_token_owner == signer
        &&& rec.candidate_token_deposit_amount == amount
    }
}

/// Admits a candidate: valid only while the ring is open, at most once per
/// candidate, and never past the limit bar — an admission beyond the cap
/// fails and leaves custody untouched.
pub fn process_candidate(
    ledger: &mut Ledger,
    signer: u64,
    tanistry: u64,
    candidate_token_mint: u64,
    amount: u64,
) -> (r: Result<(), ShihonError>)
    requires
        old(ledger).wf(),
    ensures
        final(ledger).wf(),
        match spec_candidate_check(*old(ledger), signer, tanistry, amount) {
            Some(e) => r == Err::<(), ShihonError>(e) && *final(ledger) == *old(ledger),
            None => r == Ok::<(), ShihonError>(()) && spec_candidate_applied(
                *old(ledger),
                *final(ledger),
                signer,
                tanistry,
                candidate_token_mint,
                amount,
            ),
        },
{
    if tanistry >= ledger.tanistries.len() as u64 {
        return Err(ShihonError::TanistryNotFound);
    }
    let t = tanistry as usize;
    if ledger.tanistries[t].is_sealed {
        return Err(ShihonError::InvalidTanistryState);
    }
    let token_name = ledger.tanistries[t].bc_token_name.clone();
    let tidx = match ledger.find_bc_token(&token_name) {
        Some(i) => i,
        None => {
            return Err(ShihonError::BcTokenNotFound);
        },
    };
    proof {
        ledger.lemma_token_index_unique(token_name@, tidx as int);
    }
    let state_ok: bool = match ledger.bc_tokens[tidx].bc_token_state {
        BcTokenState::EnableToCandidate => true,
        BcTokenState::TanistrySetIn => true,
        _ => false,
    };
    if !state_ok {
        return Err(ShihonError::InvalidBcTokenState);
    }
    if amount == 0 {
        return Err(ShihonError::InvalidDepositAmount);
    }
    if ledger.tanistries[t].find_candidate(signer).is_some() {
        proof {
            assert(old(ledger).tanistries@[t as int].spec_is_candidate(signer));
        }
        return Err(ShihonError::CandidateAlreadyAdmitted);
    }
    let count = ledger.tanistries[t].candidate_limit_record_list.len();
    if count as u64 >= u32::MAX as u64 {
        return Err(ShihonError::CandidateLimitExceeded);
    }
    let new_holding = match ledger.tanistries[t].holding_balance.checked_add(amount) {
        Some(s) => {
            if s > ledger.tanistries[t].config.candidate_limit_bar {
                return Err(ShihonError::CandidateLimitExceeded);
            }
            s
        },
        None => {
            return Err(ShihonError::CandidateLimitExceeded);
        },
    };
    let record = CandidateLimitRecord {
        account_type: ShihonAccountType::CandidateLimitRecord,
        belonging_tanistry: tanistry,
        number_of_candidate_count: count as u32,
        candidate_token_mint,
        candidate_token_owner: signer,
        candidate_token_deposit_amount: amount,
    };
    ledger.tanistries[t].candidate_limit_record_list.push(record);
    ledger.tanistries[t].holding_balance = new_holding;
    proof {
        let r0 = old(ledger).tanistries@[t as int];
        let r1 = ledger.tanistries@[t as int];
        assert(r1.candidate_limit_record_list@.subrange(
            0,
            r0.candidate_limit_record_list@.len() as int,
        ) =~= r0.candidate_limit_record_list@);
        lemma_sum_deposits_push(r0.candidate_limit_record_list@, record);
        assert forall|w: u64| r0.spec_is_candidate(w) implies r1.spec_is_candidate(w) by {
            let i = choose|i: int|
                0 <= i < r0.candidate_limit_record_list@.len()
                    && r0.candidate_limit_record_list@[i].candidate_token_owner == w;
            assert(r1.candidate_limit_record_list@[i].candidate_token_owner == w);
        }
        assert(r1.wf_candidates());
        assert(r1.wf_mixes());
        assert(r1.wf_rates());
        assert(r1.wf_fingerprint());
        assert(r1.wf_listings());
        assert(r1.wf_votes());
        assert(r1.wf());
        assert(ledger.wf());
    }
    Ok(())
}

} // verus!
