//! Rating other content: the rater resolves a mix exactly once.

use crate::enums::ShihonAccountType;
use crate::error::ShihonError;
use crate::ledger::Ledger;
use crate::mix_content_record::MixContentRecord;
use crate::mix_content_record::OptionMixResult;
use crate::rate_other_record::RateOtherRecord;
use crate::tanistry::Tanistry;
use crate::tanistry::lemma_fold_fingerprint_push;
use crate::tanistry::mix64;
use crate::tanistry::spec_mix64;
use vstd::prelude::*;

verus! {

/// Why rating would fail: no such ring, a sealed ring, no such mix record,
/// a record already resolved — a mix resolves exactly once — a signer who
/// is not the record's rater, a rating above the per-round ceiling, or a
/// round counter at the word limit.
pub open spec fn spec_rate_other_check(
    l: Ledger,
    signer: u64,
    tanistry: u64,
    mix_record: u64,
    rating: u64,
) -> Option<ShihonError> {
    if tanistry as int >= l.tanistries@.len() {
        Some(ShihonError::TanistryNotFound)
    } else {
        let ring = l.tanistries@[tanistry as int];
        if ring.is_sealed {
            Some(ShihonError::InvalidTanistryState)
        } else if mix_record as int >= ring.mix_content_records@.len() {
            Some(ShihonError::MixContentRecordNotFound)
        } else if !ring.mix_content_records@[mix_record as int].spec_unresolved() {
            Some(ShihonError::MixContentAlreadyResolved)
        } else if ring.mix_content_records@[mix_record as int].rater_candidate != signer {
            Some(ShihonError::RaterMustSign)
        } else if rating > ring.config.rating_ceiling {
            Some(ShihonError::RatingAboveCeiling)
        } else if ring.number_of_round == u64::MAX {
            Some(ShihonError::AmountOverflow)
        } else {
            None
        }
    }
}

/// What rating does: the mix record resolves to Succeeded or Defeated by
/// comparing the rating against the threshold, one immutable rating record
/// appears, the round counter steps by one, and the running fingerprint
/// folds in the resolved pair; nothing else moves.
pub open spec fn spec_rate_other_applied(
    old_l: Ledger,
    new_l: Ledger,
    signer: u64,
    tanistry: u64,
    mix_record: u64,
    rating: u64,
    now: i64,
) -> bool {
    let t = tanistry as int;
    let r0 = old_l.tanistries@[t];
    let r1 = new_l.tanistries@[t];
    let outcome = if rating >= r0.config.rating_threshold {
        OptionMixResult::Succeeded
    } else {
        OptionMixResult::Defeated
    };
    &&& new_l.bc_tokens@ == old_l.bc_tokens@
    &&& new_l.kicker_coin_owner_records@ == old_l.kicker_coin_owner_records@
    &&& new_l.tanistries@.len() == old_l.tanistries@.len()
    &&& forall|j: int|
        0 <= j < old_l.tanistries@.len() && j != t ==> new_l.tanistries@[j]
            == old_l.tanistries@[j]
    &&& r1 == (Tanistry {
        mix_content_records: r1.mix_content_records,
        rate_other_records: r1.rate_other_records,
        number_of_round: r1.number_of_round,
        building_fingerprint: r1.building_fingerprint,
        ..r0
    })
    &&& r1.mix_content_records@ == r0.mix_content_records@.update(
        mix_record as int,
        MixContentRecord {
            option_mix_result: outcome,
            ..r0.mix_content_records@[mix_record as int]
        },
    )
    &&& r1.rate_other_records@.len() == r0.rate_other_records@.len() + 1
    &&& r1.rate_other_records@.subrange(0, r0.rate_other_records@.len() as int)
        == r0.rate_other_records@
    &&& {
        let rec = r1.rate_other_records@.last();
        &&& rec.account_type == ShihonAccountType::RateOtherRecord
        &&& rec.mix_content_record == mix_record
        &&& rec.rate_amount == rating
        &&& rec.rating_time == Some(now)
    }
    &&& r1.number_of_round == r0.number_of_round + 1
    &&& r1.building_fingerprint == spec_mix64(
        spec_mix64(r0.building_fingerprint, mix_record),
        rating,
    )
}

/// Rates a mixed content: authorized by the rater alone, bounded by the
/// per-round ceiling; the referenced mix resolves exactly once, the round
/// counter advances and the fingerprint folds the outcome in, so the
/// fingerprint stays a verifiable summary of all rating history.
#[verifier::rlimit(60)]
pub fn process_rate_other(
    ledger: &mut Ledger,
    signer: u64,
    tanistry: u64,
    mix_record: u64,
    rating: u64,
    now: i64,
) -> (r: Result<(), ShihonError>)
    requires
        old(ledger).wf(),
    ensures
        final(ledger).wf(),
        match spec_rate_other_check(*old(ledger), signer, tanistry, mix_record, rating) {
            Some(e) => r == Err::<(), ShihonError>(e) && *final(ledger) == *old(ledger),
            None => r == Ok::<(), ShihonError>(()) && spec_rate_other_applied(
                *old(ledger),
                *final(ledger),
                signer,
                tanistry,
                mix_record,
                rating,
                now,
            ),
        },
{
    if tanistry >= ledger.tanistries.len() as u64 {
        return Err(ShihonError::TanistryNotFound);
    }
    let t = tanistry as usize;
    if ledger.tanistries[t].is_sealed {
        return Err(ShihonError::InvalidTanistryState);
    }
    if mix_record >= ledger.tanistries[t].mix_content_records.len() as u64 {
        return Err(ShihonError::MixContentRecordNotFound);
    }
    let m = mix_record as usize;
    let unresolved: bool = match ledger.tanistries[t].mix_content_records[m].option_mix_result {
        OptionMixResult::Unresolved => true,
        _ => false,
    };
    if !unresolved {
        return Err(ShihonError::MixContentAlreadyResolved);
    }
    if ledger.tanistries[t].mix_content_records[m].rater_candidate != signer {
        return Err(ShihonError::RaterMustSign);
    }
    if rating > ledger.tanistries[t].config.rating_ceiling {
        return Err(ShihonError::RatingAboveCeiling);
    }
    if ledger.tanistries[t].number_of_round == u64::MAX {
        return Err(ShihonError::AmountOverflow);
    }
    let outcome = if rating >= ledger.tanistries[t].config.rating_threshold {
        OptionMixResult::Succeeded
    } else {
        OptionMixResult::Defeated
    };
    let rate_record = RateOtherRecord {
        account_type: ShihonAccountType::RateOtherRecord,
        mix_content_record: mix_record,
        rate_amount: rating,
        rating_time: Some(now),
    };
    let new_round = ledger.tanistries[t].number_of_round + 1;
    let new_fingerprint = mix64(
        mix64(ledger.tanistries[t].building_fingerprint, mix_record),
        rating,
    );
    ledger.tanistries[t].mix_content_records[m].option_mix_result = outcome;
    ledger.tanistries[t].rate_other_records.push(rate_record);
    ledger.tanistries[t].number_of_round = new_round;
    ledger.tanistries[t].building_fingerprint = new_fingerprint;
    proof {
        let r0 = old(ledger).tanistries@[t as int];
        let r1 = ledger.tanistries@[t as int];
        let m0 = r0.mix_content_records@;
        let m1 = r1.mix_content_records@;
        let rates0 = r0.rate_other_records@;
        let rates1 = r1.rate_other_records@;
        assert(rates1.subrange(0, rates0.len() as int) =~= rates0);
        assert(m1 =~= m0.update(
            m as int,
            MixContentRecord { option_mix_result: outcome, ..m0[m as int] },
        ));
        assert forall|i: int| 0 <= i < rates0.len() implies (#[trigger] rates1[i]) == rates0[i]
            && rates0[i].mix_content_record != mix_record by {
            if rates0[i].mix_content_record == mix_record {
                assert(m0[mix_record as int].option_mix_result != OptionMixResult::Unresolved);
            }
        }
        assert(rates1 =~= rates0.push(rate_record));
        lemma_fold_fingerprint_push(
            rates0,
            crate::tanistry::spec_initial_fingerprint(r0.kicker_coin_holder, r0.coordinator),
            rate_record,
        );
        assert forall|w: u64| r0.spec_is_candidate(w) implies r1.spec_is_candidate(w) by {}
        assert(r1.wf_candidates());
        assert(r1.wf_mixes());
        assert(r1.wf_rates());
        assert(r1.wf_fingerprint());
        assert(r1.wf_listings());
        assert(r1.wf_votes());
        assert(ledger.wf());
    }
    Ok(())
}

} // verus!
