//! Discarding a content token.

use crate::enums::BcTokenState;
use crate::error::ShihonError;
use crate::ledger::Ledger;
use vstd::prelude::*;

verus! {

/// Why discarding would fail: no token of this name, a caller who is
/// neither owner nor authority, or a token already past Private — once an
/// escrow may reference it, it can no longer be discarded.
pub open spec fn spec_discard_bc_token_check(l: Ledger, signer: u64, name: Seq<char>) -> Option<
    ShihonError,
> {
    if !l.spec_has_token(name) {
        Some(ShihonError::BcTokenNotFound)
    } else {
        let tok = l.bc_tokens@[l.spec_token_index(name)];
        if !tok.spec_authorized(signer) {
            Some(ShihonError::InvalidAuthorityForBcToken)
        } else if !(tok.bc_token_state == BcTokenState::DraftBlankCheck || tok.bc_token_state
            == BcTokenState::HoldingOnPrivate) {
            Some(ShihonError::InvalidBcTokenState)
        } else {
            None
        }
    }
}

/// What discarding does: the named token becomes Cancelled, absorbing and
/// referenced by nothing; every other record stays as it was.
pub open spec fn spec_discard_bc_token_applied(
    old_l: Ledger,
    new_l: Ledger,
    name: Seq<char>,
) -> bool {
    let i = old_l.spec_token_index(name);
    &&& new_l.kicker_coin_owner_records@ == old_l.kicker_coin_owner_records@
    &&& new_l.tanistries@ == old_l.tanistries@
    &&& new_l.bc_tokens@.len() == old_l.bc_tokens@.len()
    &&& forall|j: int|
        0 <= j < old_l.bc_tokens@.len() && j != i ==> new_l.bc_tokens@[j] == old_l.bc_tokens@[j]
    &&& new_l.bc_tokens@[i] == crate::bc_token::BcToken {
        bc_token_state: BcTokenState::Cancelled,
        ..old_l.bc_tokens@[i]
    }
}

/// Discards a content token: legal only from Draft or Private, while no
/// escrow can reference it; the token is permanently cancelled.
pub fn process_discard_bc_token(ledger: &mut Ledger, signer: u64, name: String) -> (r: Result<
    (),
    ShihonError,
>)
    requires
        old(ledger).wf(),
    ensures
        final(ledger).wf(),
        match spec_discard_bc_token_check(*old(ledger), signer, name@) {
            Some(e) => r == Err::<(), ShihonError>(e) && *final(ledger) == *old(ledger),
            None => r == Ok::<(), ShihonError>(()) && spec_discard_bc_token_applied(
                *old(ledger),
                *final(ledger),
                name@,
            ),
        },
{
    let idx = match ledger.find_bc_token(&name) {
        Some(i) => i,
        None => {
            return Err(ShihonError::BcTokenNotFound);
        },
    };
    proof {
        ledger.lemma_token_index_unique(name@, idx as int);
    }
    match ledger.bc_tokens[idx].assert_authorized(signer) {
        Ok(()) => (),
        Err(e) => {
            return Err(e);
        },
    }
    let state_ok: bool = match ledger.bc_tokens[idx].bc_token_state {
        BcTokenState::DraftBlankCheck => true,
        BcTokenState::HoldingOnPrivate => true,
        _ => false,
    };
    if !state_ok {
        return Err(ShihonError::InvalidBcTokenState);
    }
    ledger.bc_tokens[idx].bc_token_state = BcTokenState::Cancelled;
    Ok(())
}

} // verus!
