//! Listing exceeded-rate stake for sale on the secondary market.

use crate::enums::ShihonAccountType;
use crate::error::ShihonError;
use crate::ledger::Ledger;
use crate::outside_buyer_record::OutsideBuyerRecord;
use crate::tanistry::Tanistry;
use vstd::prelude::*;

verus! {

/// The stake a candidate may currently offer for sale: the part of their
/// effective stake — deposit plus received ratings — that exceeds the
/// ring's cap, never more than the custody-backed deposit itself.
pub open spec fn spec_sellable(ring: Tanistry, who: u64) -> int {
    let deposit = ring.candidate_limit_record_list@[ring.spec_candidate_index(
        who,
    )].candidate_token_deposit_amount as int;
    let surplus = deposit + ring.spec_rated_total(who) - ring.config.exceeded_rate_cap;
    if surplus <= 0 {
        0
    } else if surplus <= deposit {
        surplus
    } else {
        deposit
    }
}

/// Why listing would fail: no such ring, a sealed ring, a zero amount, a
/// seller who is not an admitted candidate, an open listing already
/// standing, a rated total past the word size, a deadline past the word
/// size, or an amount above the sellable surplus.
pub open spec fn spec_sell_exceeded_rate_token_check(
    l: Ledger,
    signer: u64,
    tanistry: u64,
    amount: u64,
    now: i64,
) -> Option<ShihonError> {
    if tanistry as int >= l.tanistries@.len() {
        Some(ShihonError::TanistryNotFound)
    } else {
        let ring = l.tanistries@[tanistry as int];
        if ring.is_sealed {
            Some(ShihonError::InvalidTanistryState)
        } else if amount == 0 {
            Some(ShihonError::InvalidDepositAmount)
        } else if !ring.spec_is_candidate(signer) {
            Some(ShihonError::CandidateLimitRecordNotFound)
        } else if ring.spec_has_open_listing(signer) {
            Some(ShihonError::OutsideBuyerRecordAlreadyExists)
        } else if ring.spec_rated_total(signer) > u64::MAX {
            Some(ShihonError::AmountOverflow)
        } else if now + ring.config.sale_window > i64::MAX {
            Some(ShihonError::AmountOverflow)
        } else if amount > spec_sellable(ring, signer) {
            Some(ShihonError::NoExceededRateToSell)
        } else {
            None
        }
    }
}

/// What listing does: one open resale record appears, sold by the caller,
/// with the deadline one sale window from now; the stake itself stays
/// recorded with the seller until a buy consumes it.
pub open spec fn spec_sell_exceeded_rate_token_applied(
    old_l: Ledger,
    new_l: Ledger,
    signer: u64,
    tanistry: u64,
    outside_buyer_token_mint: u64,
    amount: u64,
    now: i64,
) -> bool {
    let t = tanistry as int;
    let r0 = old_l.tanistries@[t];
    let r1 = new_l.tanistries@[t];
    &&& new_l.bc_tokens@ == old_l.bc_tokens@
    &&& new_l.kicker_coin_owner_records@ == old_l.kicker_coin_owner_records@
    &&& new_l.tanistries@.len() == old_l.tanistries@.len()
    &&& forall|j: int|
        0 <= j < old_l.tanistries@.len() && j != t ==> new_l.tanistries@[j]
            == old_l.tanistries@[j]
    &&& r1 == (Tanistry { outside_buyer_records: r1.outside_buyer_records, ..r0 })
    &&& r1.outside_buyer_records@.len() == r0.outside_buyer_records@.len() + 1
    &&& r1.outside_buyer_records@.subrange(0, r0.outside_buyer_records@.len() as int)
        == r0.outside_buyer_records@
    &&& {
        let rec = r1.outside_buyer_records@.last();
        &&& rec.account_type == ShihonAccountType::OutsideBuyerRecord
        &&& rec.tanistry == tanistry
        &&& rec.seller == signer
        &&& rec.outside_buyer_token_mint == outside_buyer_token_mint
        &&& rec.outside_buyer_token_owner is None
        &&& rec.outside_buyer_token_deposit_amount == amount
        &&& rec.deadline == now + r0.config.sale_window
        &&& rec.is_open == true
    }
}

/// Lists surplus stake for sale: only an admitted candidate whose rated
/// stake exceeds the cap, only up to that surplus, one open listing at a
/// time, with a deadline derived from the current time.
#[verifier::rlimit(50)]
pub fn process_sell_exceeded_rate_token(
    ledger: &mut Ledger,
    signer: u64,
    tanistry: u64,
    outside_buyer_token_mint: u64,
    amount: u64,
    now: i64,
) -> (r: Result<(), ShihonError>)
    requires
        old(ledger).wf(),
        now >= 0,
    ensures
        final(ledger).wf(),
        match spec_sell_exceeded_rate_token_check(*old(ledger), signer, tanistry, amount, now) {
            Some(e) => r == Err::<(), ShihonError>(e) && *final(ledger) == *old(ledger),
            None => r == Ok::<(), ShihonError>(()) && spec_sell_exceeded_rate_token_applied(
                *old(ledger),
                *final(ledger),
                signer,
                tanistry,
                outside_buyer_token_mint,
                amount,
                now,
            ),
        },
{
    if tanistry >= ledger.tanistries.len() as u64 {
        return Err(ShihonError::TanistryNotFound);
    }
    let t = tanistry as usize;
    if ledger.tanistries[t].is_sealed {
        return Err(ShihonError::InvalidTanistryState);
    }
    if amount == 0 {
        return Err(ShihonError::InvalidDepositAmount);
    }
    let ci = match ledger.tanistries[t].find_candidate(signer) {
        Some(i) => i,
        None => {
            return Err(ShihonError::CandidateLimitRecordNotFound);
        },
    };
    proof {
        ledger.tanistries@[t as int].lemma_candidate_index_unique(signer, ci as int);
    }
    if ledger.tanistries[t].find_open_listing(signer).is_some() {
        return Err(ShihonError::OutsideBuyerRecordAlreadyExists);
    }
    let rated = match ledger.tanistries[t].rated_total(signer) {
        Some(v) => v,
        None => {
            return Err(ShihonError::AmountOverflow);
        },
    };
    let deadline = match now.checked_add(ledger.tanistries[t].config.sale_window) {
        Some(d) => d,
        None => {
            return Err(ShihonError::AmountOverflow);
        },
    };
    let deposit =
        ledger.tanistries[t].candidate_limit_record_list[ci].candidate_token_deposit_amount;
    let cap = ledger.tanistries[t].config.exceeded_rate_cap;
    let effective: u128 = (deposit as u128) + (rated as u128);
    let sellable: u64 = if effective <= cap as u128 {
        0
    } else {
        let surplus: u128 = effective - (cap as u128);
        if surplus <= deposit as u128 {
            surplus as u64
        } else {
            deposit
        }
    };
    proof {
        assert(sellable == spec_sellable(ledger.tanistries@[t as int], signer));
    }
    if amount > sellable {
        return Err(ShihonError::NoExceededRateToSell);
    }
    let record = OutsideBuyerRecord {
        account_type: ShihonAccountType::OutsideBuyerRecord,
        tanistry,
        seller: signer,
        outside_buyer_token_mint,
        outside_buyer_token_owner: None,
        outside_buyer_token_deposit_amount: amount,
        deadline,
        is_open: true,
    };
    ledger.tanistries[t].outside_buyer_records.push(record);
    proof {
        let r0 = old(ledger).tanistries@[t as int];
        let r1 = ledger.tanistries@[t as int];
        assert(r1.outside_buyer_records@.subrange(0, r0.outside_buyer_records@.len() as int)
            =~= r0.outside_buyer_records@);
        assert forall|i: int, j: int|
            0 <= i < r1.outside_buyer_records@.len() && 0 <= j
                < r1.candidate_limit_record_list@.len() && (
            #[trigger] r1.outside_buyer_records@[i]).is_open && (
            #[trigger] r1.candidate_limit_record_list@[j]).candidate_token_owner
                == r1.outside_buyer_records@[i].seller implies r1.candidate_limit_record_list@[j].candidate_token_deposit_amount
            >= r1.outside_buyer_records@[i].outside_buyer_token_deposit_amount by {
            if i == r0.outside_buyer_records@.len() {
                assert(r1.candidate_limit_record_list@[j].candidate_token_owner == signer);
                assert(j == ci as int);
            }
        }
        assert(r1.wf_candidates());
        assert(r1.wf_mixes());
        assert(r1.wf_rates());
        assert(r1.wf_fingerprint());
        assert(r1.wf_listings());
        assert(r1.wf_votes());
        assert(ledger.wf());
    }
    Ok(())
}

} // verus!
