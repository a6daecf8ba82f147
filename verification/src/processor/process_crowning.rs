//! Crowning: the coordinator elects a successor and seals the ring.

use crate::enums::BcTokenState;
use crate::error::ShihonError;
use crate::ledger::Ledger;
use crate::tanistry::Tanistry;
use crate::tanistry::mix64;
use crate::tanistry::spec_mix64;
use vstd::prelude::*;

verus! {

/// Why crowning would fail: no such ring, a ring already sealed, a signer
/// other than the current coordinator, too few rounds, a crown that is not
/// an admitted candidate, or a ring token outside the crowning window.
pub open spec fn spec_crowning_check(
    l: Ledger,
    signer: u64,
    tanistry: u64,
    crown: u64,
) -> Option<ShihonError> {
    if tanistry as int >= l.tanistries@.len() {
        Some(ShihonError::TanistryNotFound)
    } else {
        let ring = l.tanistries@[tanistry as int];
        if ring.is_sealed {
            Some(ShihonError::InvalidTanistryState)
        } else if signer != ring.coordinator {
            Some(ShihonError::CoordinatorMustSign)
        } else if ring.number_of_round < ring.config.min_round_for_crowning {
            Some(ShihonError::NotEnoughRounds)
        } else if !ring.spec_is_candidate(crown) {
            Some(ShihonError::InvalidCrownCandidate)
        } else if !l.spec_has_token(ring.bc_token_name@) {
            Some(ShihonError::BcTokenNotFound)
        } else if !(l.bc_tokens@[l.spec_token_index(ring.bc_token_name@)].bc_token_state
            == BcTokenState::EnableToCandidate || l.bc_tokens@[l.spec_token_index(
            ring.bc_token_name@,
        )].bc_token_state == BcTokenState::TanistrySetIn || l.bc_tokens@[l.spec_token_index(
            ring.bc_token_name@,
        )].bc_token_state == BcTokenState::EnableToVoteToCC) {
            Some(ShihonError::InvalidBcTokenState)
        } else {
            None
        }
    }
}

/// What crowning does: the ring records its crown and seals — KickerCoin
/// ownership leaves the ring, so the building fingerprint folds the crown
/// in — and the ring's token becomes refund-eligible.  A successor ring
/// links back here once the crown kicks onward.
pub open spec fn spec_crowning_applied(
    old_l: Ledger,
    new_l: Ledger,
    tanistry: u64,
    crown: u64,
) -> bool {
    let t = tanistry as int;
    let r0 = old_l.tanistries@[t];
    let r1 = new_l.tanistries@[t];
    let ti = old_l.spec_token_index(r0.bc_token_name@);
    &&& new_l.bc_tokens@ == old_l.bc_tokens@.update(
        ti,
        crate::bc_token::BcToken {
            bc_token_state: BcTokenState::EnableToRefund,
            ..old_l.bc_tokens@[ti]
        },
    )
    &&& new_l.kicker_coin_owner_records@ == old_l.kicker_coin_owner_records@
    &&& new_l.tanistries@.len() == old_l.tanistries@.len()
    &&& forall|j: int|
        0 <= j < old_l.tanistries@.len() && j != t ==> new_l.tanistries@[j]
            == old_l.tanistries@[j]
    &&& r1 == (Tanistry {
        crown: Some(crown),
        is_sealed: true,
        building_fingerprint: spec_mix64(r0.building_fingerprint, crown),
        ..r0
    })
}

/// Crowns a successor: authorized by the current coordinator only, once
/// the round counter reaches the configured minimum, electing one of the
/// admitted candidates; the old ring seals refund-eligible and its history
/// is preserved for the successor to link onto.
#[verifier::rlimit(50)]
pub fn process_crowning(ledger: &mut Ledger, signer: u64, tanistry: u64, crown: u64) -> (r:
    Result<(), ShihonError>)
    requires
        old(ledger).wf(),
    ensures
        final(ledger).wf(),
        match spec_crowning_check(*old(ledger), signer, tanistry, crown) {
            Some(e) => r == Err::<(), ShihonError>(e) && *final(ledger) == *old(ledger),
            None => r == Ok::<(), ShihonError>(()) && spec_crowning_applied(
                *old(ledger),
                *final(ledger),
                tanistry,
                crown,
            ),
        },
{
    if tanistry >= ledger.tanistries.len() as u64 {
        return Err(ShihonError::TanistryNotFound);
    }
    let t = tanistry as usize;
    if ledger.tanistries[t].is_sealed {
        return Err(ShihonError::InvalidTanistryState);
    }
    if signer != ledger.tanistries[t].coordinator {
        return Err(ShihonError::CoordinatorMustSign);
    }
    if ledger.tanistries[t].number_of_round
        < ledger.tanistries[t].config.min_round_for_crowning {
        return Err(ShihonError::NotEnoughRounds);
    }
    if ledger.tanistries[t].find_candidate(crown).is_none() {
        return Err(ShihonError::InvalidCrownCandidate);
    }
    let token_name = ledger.tanistries[t].bc_token_name.clone();
    let tidx = match ledger.find_bc_token(&token_name) {
        Some(i) => i,
        None => {
            return Err(ShihonError::BcTokenNotFound);
        },
    };
    proof {
        ledger.lemma_token_index_unique(token_name@, tidx as int);
    }
    let state_ok: bool = match ledger.bc_tokens[tidx].bc_token_state {
        BcTokenState::EnableToCandidate => true,
        BcTokenState::TanistrySetIn => true,
        BcTokenState::EnableToVoteToCC => true,
        _ => false,
    };
    if !state_ok {
        return Err(ShihonError::InvalidBcTokenState);
    }
    let new_fingerprint = mix64(ledger.tanistries[t].building_fingerprint, crown);
    ledger.bc_tokens[tidx].bc_token_state = BcTokenState::EnableToRefund;
    ledger.tanistries[t].crown = Some(crown);
    ledger.tanistries[t].is_sealed = true;
    ledger.tanistries[t].building_fingerprint = new_fingerprint;
    proof {
        let r1 = ledger.tanistries@[t as int];
        assert(r1.wf_fingerprint());
        assert(ledger.wf());
    }
    Ok(())
}

} // verus!
