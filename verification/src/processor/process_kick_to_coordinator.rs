//! Kicking a KickerCoin at a prospective coordinator.

use crate::enums::BcTokenState;
use crate::enums::ShihonAccountType;
use crate::error::ShihonError;
use crate::kicker_coin_owner_record::KickerCoinOwnerRecord;
use crate::ledger::Ledger;
use vstd::prelude::*;

verus! {

/// Why kicking would fail: kicking at oneself, no token of this name, a
/// caller who does not hold the token, a token that is not on public
/// ground, or a live escrow record already standing for this pair.
pub open spec fn spec_kick_to_coordinator_check(
    l: Ledger,
    signer: u64,
    name: Seq<char>,
    coordinator: u64,
) -> Option<ShihonError> {
    if coordinator == signer {
        Some(ShihonError::InvalidInstruction)
    } else if !l.spec_has_token(name) {
        Some(ShihonError::BcTokenNotFound)
    } else {
        let tok = l.bc_tokens@[l.spec_token_index(name)];
        if !tok.spec_authorized(signer) {
            Some(ShihonError::InvalidAuthorityForBcToken)
        } else if tok.bc_token_state != BcTokenState::PublicOnTheGround {
            Some(ShihonError::InvalidBcTokenState)
        } else if l.spec_has_escrow(signer, coordinator) {
            Some(ShihonError::KickerCoinOwnerRecordAlreadyExists)
        } else {
            None
        }
    }
}

/// What kicking does: one new pending escrow record for the ordered pair,
/// holding the escrowed amount; nothing else moves.
pub open spec fn spec_kick_to_coordinator_applied(
    old_l: Ledger,
    new_l: Ledger,
    signer: u64,
    name: Seq<char>,
    coordinator: u64,
    amount: u64,
) -> bool {
    &&& new_l.bc_tokens@ == old_l.bc_tokens@
    &&& new_l.tanistries@ == old_l.tanistries@
    &&& new_l.kicker_coin_owner_records@.len() == old_l.kicker_coin_owner_records@.len() + 1
    &&& new_l.kicker_coin_owner_records@.subrange(
        0,
        old_l.kicker_coin_owner_records@.len() as int,
    ) == old_l.kicker_coin_owner_records@
    &&& {
        let rec = new_l.kicker_coin_owner_records@.last();
        &&& rec.account_type == ShihonAccountType::KickerCoinOwnerRecord
        &&& rec.kicker_coin_holder == signer
        &&& rec.coordinator == coordinator
        &&& rec.amount_of_kicker_coin == amount
        &&& rec.bc_token_name@ == name
        &&& rec.is_kick_off == false
    }
}

/// Throws a KickerCoin at a coordinator: creates the pending escrow record
/// that keeps the coin safe until the coordinator approves or denies.
pub fn process_kick_to_coordinator(
    ledger: &mut Ledger,
    signer: u64,
    name: String,
    coordinator: u64,
    amount: u64,
) -> (r: Result<(), ShihonError>)
    requires
        old(ledger).wf(),
    ensures
        final(ledger).wf(),
        match spec_kick_to_coordinator_check(*old(ledger), signer, name@, coordinator) {
            Some(e) => r == Err::<(), ShihonError>(e) && *final(ledger) == *old(ledger),
            None => r == Ok::<(), ShihonError>(()) && spec_kick_to_coordinator_applied(
                *old(ledger),
                *final(ledger),
                signer,
                name@,
                coordinator,
                amount,
            ),
        },
{
    if coordinator == signer {
        return Err(ShihonError::InvalidInstruction);
    }
    let idx = match ledger.find_bc_token(&name) {
        Some(i) => i,
        None => {
            return Err(ShihonError::BcTokenNotFound);
        },
    };
    proof {
        ledger.lemma_token_index_unique(name@, idx as int);
    }
    match ledger.bc_tokens[idx].assert_authorized(signer) {
        Ok(()) => (),
        Err(e) => {
            return Err(e);
        },
    }
    let state_ok: bool = match ledger.bc_tokens[idx].bc_token_state {
        BcTokenState::PublicOnTheGround => true,
        _ => false,
    };
    if !state_ok {
        return Err(ShihonError::InvalidBcTokenState);
    }
    if ledger.find_kicker_coin_owner_record(signer, coordinator).is_some() {
        return Err(ShihonError::KickerCoinOwnerRecordAlreadyExists);
    }
    let record = KickerCoinOwnerRecord {
        account_type: ShihonAccountType::KickerCoinOwnerRecord,
        kicker_coin_holder: signer,
        coordinator,
        amount_of_kicker_coin: amount,
        bc_token_name: name,
        is_kick_off: false,
    };
    let ghost old_records = ledger.kicker_coin_owner_records@;
    ledger.kicker_coin_owner_records.push(record);
    proof {
        assert(ledger.kicker_coin_owner_records@.subrange(0, old_records.len() as int)
            =~= old_records);
    }
    Ok(())
}

} // verus!
