//! Buying exceeded-rate stake from the secondary market.

use crate::candidate_limit_record::CandidateLimitRecord;
use crate::error::ShihonError;
use crate::ledger::Ledger;
use crate::outside_buyer_record::OutsideBuyerRecord;
use crate::tanistry::Tanistry;
use crate::tanistry::lemma_sum_deposits_bounds;
use crate::tanistry::lemma_sum_deposits_update;
use vstd::prelude::*;

verus! {

/// Why buying would fail: no such ring, a sealed ring, no open listing by
/// this seller, a mint that is not the listed one, a deadline already
/// passed — the listing lapses — or an amount that does not match the
/// listing exactly, partial fills being unsupported.
pub open spec fn spec_buy_exceeded_rate_token_check(
    l: Ledger,
    tanistry: u64,
    seller: u64,
    token: u64,
    amount: u64,
    now: i64,
) -> Option<ShihonError> {
    if tanistry as int >= l.tanistries@.len() {
        Some(ShihonError::TanistryNotFound)
    } else {
        let ring = l.tanistries@[tanistry as int];
        if ring.is_sealed {
            Some(ShihonError::InvalidTanistryState)
        } else if !ring.spec_has_open_listing(seller) {
            Some(ShihonError::OutsideBuyerRecordNotFound)
        } else {
            let listing = ring.outside_buyer_records@[ring.spec_open_listing_index(seller)];
            if listing.outside_buyer_token_mint != token {
                Some(ShihonError::InvalidBcTokenMint)
            } else if now > listing.deadline {
                Some(ShihonError::DeadlineExpired)
            } else if listing.outside_buyer_token_deposit_amount != amount {
                Some(ShihonError::ExpectedAmountMismatch)
            } else {
                None
            }
        }
    }
}

/// What a lapse does: once the deadline is observed to have passed, the
/// listing closes unsold and the surplus stays with — is restored to — the
/// seller's recorded stake, which the sale never touched; nothing else
/// moves.
pub open spec fn spec_buy_lapse_applied(
    old_l: Ledger,
    new_l: Ledger,
    tanistry: u64,
    seller: u64,
) -> bool {
    let t = tanistry as int;
    let r0 = old_l.tanistries@[t];
    let r1 = new_l.tanistries@[t];
    let li = r0.spec_open_listing_index(seller);
    &&& new_l.bc_tokens@ == old_l.bc_tokens@
    &&& new_l.kicker_coin_owner_records@ == old_l.kicker_coin_owner_records@
    &&& new_l.tanistries@.len() == old_l.tanistries@.len()
    &&& forall|j: int|
        0 <= j < old_l.tanistries@.len() && j != t ==> new_l.tanistries@[j]
            == old_l.tanistries@[j]
    &&& r1 == (Tanistry { outside_buyer_records: r1.outside_buyer_records, ..r0 })
    &&& r1.outside_buyer_records@ == r0.outside_buyer_records@.update(
        li,
        OutsideBuyerRecord { is_open: false, ..r0.outside_buyer_records@[li] },
    )
}

/// What a successful buy does: the listing closes with the buyer recorded,
/// the listed amount leaves the seller's recorded stake and the holding
/// custody together — custody moves to the buyer outside — and nothing
/// else moves.
pub open spec fn spec_buy_exceeded_rate_token_applied(
    old_l: Ledger,
    new_l: Ledger,
    signer: u64,
    tanistry: u64,
    seller: u64,
    amount: u64,
) -> bool {
    let t = tanistry as int;
    let r0 = old_l.tanistries@[t];
    let r1 = new_l.tanistries@[t];
    let li = r0.spec_open_listing_index(seller);
    let ci = r0.spec_candidate_index(seller);
    let rec0 = r0.candidate_limit_record_list@[ci];
    &&& new_l.bc_tokens@ == old_l.bc_tokens@
    &&& new_l.kicker_coin_owner_records@ == old_l.kicker_coin_owner_records@
    &&& new_l.tanistries@.len() == old_l.tanistries@.len()
    &&& forall|j: int|
        0 <= j < old_l.tanistries@.len() && j != t ==> new_l.tanistries@[j]
            == old_l.tanistries@[j]
    &&& r1 == (Tanistry {
        outside_buyer_records: r1.outside_buyer_records,
        candidate_limit_record_list: r1.candidate_limit_record_list,
        holding_balance: r1.holding_balance,
        ..r0
    })
    &&& r1.outside_buyer_records@ == r0.outside_buyer_records@.update(
        li,
        OutsideBuyerRecord {
            is_open: false,
            outside_buyer_token_owner: Some(signer),
            ..r0.outside_buyer_records@[li]
        },
    )
    &&& r1.candidate_limit_record_list@ == r0.candidate_limit_record_list@.update(
        ci,
        CandidateLimitRecord {
            candidate_token_deposit_amount: (rec0.candidate_token_deposit_amount - amount) as u64,
            ..rec0
        },
    )
    &&& r1.holding_balance == r0.holding_balance - amount
}

/// Buys a listed resale: the amount must match the listing exactly and the
/// deadline must not have passed; past the deadline the buy fails with
/// deadline-expired and the lapsed listing closes, the surplus reverting to
/// the seller's recorded stake.
#[verifier::rlimit(50)]
pub fn process_buy_exceeded_rate_token(
    ledger: &mut Ledger,
    signer: u64,
    tanistry: u64,
    seller: u64,
    token: u64,
    amount: u64,
    now: i64,
) -> (r: Result<(), ShihonError>)
    requires
        old(ledger).wf(),
    ensures
        final(ledger).wf(),
        match spec_buy_exceeded_rate_token_check(
            *old(ledger),
            tanistry,
            seller,
            token,
            amount,
            now,
        ) {
            Some(e) => r == Err::<(), ShihonError>(e) && if e == ShihonError::DeadlineExpired {
                spec_buy_lapse_applied(*old(ledger), *final(ledger), tanistry, seller)
            } else {
                *final(ledger) == *old(ledger)
            },
            None => r == Ok::<(), ShihonError>(()) && spec_buy_exceeded_rate_token_applied(
                *old(ledger),
                *final(ledger),
                signer,
                tanistry,
                seller,
                amount,
            ),
        },
{
    if tanistry >= ledger.tanistries.len() as u64 {
        return Err(ShihonError::TanistryNotFound);
    }
    let t = tanistry as usize;
    if ledger.tanistries[t].is_sealed {
        return Err(ShihonError::InvalidTanistryState);
    }
    let li = match ledger.tanistries[t].find_open_listing(seller) {
        Some(i) => i,
        None => {
            return Err(ShihonError::OutsideBuyerRecordNotFound);
        },
    };
    proof {
        ledger.tanistries@[t as int].lemma_open_listing_unique(seller, li as int);
    }
    if ledger.tanistries[t].outside_buyer_records[li].outside_buyer_token_mint != token {
        return Err(ShihonError::InvalidBcTokenMint);
    }
    if now > ledger.tanistries[t].outside_buyer_records[li].deadline {
        ledger.tanistries[t].outside_buyer_records[li].is_open = false;
        proof {
            let r0 = old(ledger).tanistries@[t as int];
            let r1 = ledger.tanistries@[t as int];
            assert(r1.outside_buyer_records@ =~= r0.outside_buyer_records@.update(
                li as int,
                OutsideBuyerRecord { is_open: false, ..r0.outside_buyer_records@[li as int] },
            ));
            assert(r1.wf_listings());
            assert(ledger.wf());
        }
        return Err(ShihonError::DeadlineExpired);
    }
    if ledger.tanistries[t].outside_buyer_records[li].outside_buyer_token_deposit_amount
        != amount {
        return Err(ShihonError::ExpectedAmountMismatch);
    }
    let ci = match ledger.tanistries[t].find_candidate(seller) {
        Some(i) => i,
        None => {
            proof {
                assert(old(ledger).tanistries@[t as int].spec_is_candidate(seller));
            }
            return Err(ShihonError::CandidateLimitRecordNotFound);
        },
    };
    proof {
        ledger.tanistries@[t as int].lemma_candidate_index_unique(seller, ci as int);
        lemma_sum_deposits_bounds(
            ledger.tanistries@[t as int].candidate_limit_record_list@,
            ci as int,
        );
    }
    let old_deposit =
        ledger.tanistries[t].candidate_limit_record_list[ci].candidate_token_deposit_amount;
    let ghost rec0 = ledger.tanistries@[t as int].candidate_limit_record_list@[ci as int];
    ledger.tanistries[t].outside_buyer_records[li].is_open = false;
    ledger.tanistries[t].outside_buyer_records[li].outside_buyer_token_owner = Some(signer);
    ledger.tanistries[t].candidate_limit_record_list[ci].candidate_token_deposit_amount =
        old_deposit - amount;
    let old_holding = ledger.tanistries[t].holding_balance;
    ledger.tanistries[t].holding_balance = old_holding - amount;
    proof {
        let r0 = old(ledger).tanistries@[t as int];
        let r1 = ledger.tanistries@[t as int];
        assert(r1.outside_buyer_records@ =~= r0.outside_buyer_records@.update(
            li as int,
            OutsideBuyerRecord {
                is_open: false,
                outside_buyer_token_owner: Some(signer),
                ..r0.outside_buyer_records@[li as int]
            },
        ));
        assert(r1.candidate_limit_record_list@ =~= r0.candidate_limit_record_list@.update(
            ci as int,
            CandidateLimitRecord {
                candidate_token_deposit_amount: (rec0.candidate_token_deposit_amount
                    - amount) as u64,
                ..rec0
            },
        ));
        lemma_sum_deposits_update(
            r0.candidate_limit_record_list@,
            ci as int,
            CandidateLimitRecord {
                candidate_token_deposit_amount: (rec0.candidate_token_deposit_amount
                    - amount) as u64,
                ..rec0
            },
        );
        assert forall|w: u64| r0.spec_is_candidate(w) implies r1.spec_is_candidate(w) by {
            let i = choose|i: int|
                0 <= i < r0.candidate_limit_record_list@.len()
                    && r0.candidate_limit_record_list@[i].candidate_token_owner == w;
            assert(r1.candidate_limit_record_list@[i].candidate_token_owner == w);
        }
        assert forall|i: int, j: int|
            0 <= i < r1.outside_buyer_records@.len() && 0 <= j
                < r1.candidate_limit_record_list@.len() && (
            #[trigger] r1.outside_buyer_records@[i]).is_open && (
            #[trigger] r1.candidate_limit_record_list@[j]).candidate_token_owner
                == r1.outside_buyer_records@[i].seller implies r1.candidate_limit_record_list@[j].candidate_token_deposit_amount
            >= r1.outside_buyer_records@[i].outside_buyer_token_deposit_amount by {
            if j == ci as int {
                assert(r0.outside_buyer_records@[i].is_open);
                assert(r0.outside_buyer_records@[i].seller == seller);
                assert(i == li as int);
                assert(false);
            }
        }
        assert(r1.wf_candidates());
        assert(r1.wf_mixes());
        assert(r1.wf_rates());
        assert(r1.wf_fingerprint());
        assert(r1.wf_listings());
        assert(r1.wf_votes());
        assert(ledger.wf());
    }
    Ok(())
}

} // verus!
