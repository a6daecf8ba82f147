//! Publishing a content token: attaching content metadata and deposit.

use crate::bc_token_metadata::BcTokenMetadata;
use crate::enums::BcTokenState;
use crate::enums::ShihonAccountType;
use crate::error::ShihonError;
use crate::ledger::Ledger;
use vstd::prelude::*;

verus! {

/// Why publishing would fail: no token of this name, a caller who is
/// neither owner nor authority, or a lifecycle state the transition is
/// illegal for.  Publishing publicly is legal from Draft or Private;
/// publishing privately only from Draft.
pub open spec fn spec_create_bc_token_check(
    l: Ledger,
    signer: u64,
    name: Seq<char>,
    is_public: bool,
) -> Option<ShihonError> {
    if !l.spec_has_token(name) {
        Some(ShihonError::BcTokenNotFound)
    } else {
        let tok = l.bc_tokens@[l.spec_token_index(name)];
        if !tok.spec_authorized(signer) {
            Some(ShihonError::InvalidAuthorityForBcToken)
        } else if is_public && !(tok.bc_token_state == BcTokenState::DraftBlankCheck
            || tok.bc_token_state == BcTokenState::HoldingOnPrivate) {
            Some(ShihonError::InvalidBcTokenState)
        } else if !is_public && tok.bc_token_state != BcTokenState::DraftBlankCheck {
            Some(ShihonError::InvalidBcTokenState)
        } else {
            None
        }
    }
}

/// What publishing does: the named token takes the deposit and the given
/// metadata, and its state steps forward to Public or Private per the
/// visibility flag; every other record stays as it was.
pub open spec fn spec_create_bc_token_applied(
    old_l: Ledger,
    new_l: Ledger,
    name: Seq<char>,
    amount: u64,
    config: BcTokenMetadata,
) -> bool {
    let i = old_l.spec_token_index(name);
    &&& new_l.kicker_coin_owner_records@ == old_l.kicker_coin_owner_records@
    &&& new_l.tanistries@ == old_l.tanistries@
    &&& new_l.bc_tokens@.len() == old_l.bc_tokens@.len()
    &&& forall|j: int|
        0 <= j < old_l.bc_tokens@.len() && j != i ==> new_l.bc_tokens@[j] == old_l.bc_tokens@[j]
    &&& {
        let t0 = old_l.bc_tokens@[i];
        let t1 = new_l.bc_tokens@[i];
        &&& t1.account_type == t0.account_type
        &&& t1.bc_token_owner_pubkey == t0.bc_token_owner_pubkey
        &&& t1.issue_at == t0.issue_at
        &&& t1.authority == t0.authority
        &&& t1.name@ == t0.name@
        &&& t1.bc_token_mint == t0.bc_token_mint
        &&& t1.amount_of_coin == amount
        &&& t1.bc_token_state == (if config.is_public {
            BcTokenState::PublicOnTheGround
        } else {
            BcTokenState::HoldingOnPrivate
        })
        &&& t1.config.account_type == ShihonAccountType::BcTokenMetadata
        &&& t1.config.content_type == config.content_type
        &&& t1.config.content_fingerprint == config.content_fingerprint
        &&& t1.config.updated_at == config.updated_at
        &&& t1.config.version@ == config.version@
        &&& t1.config.is_public == config.is_public
    }
}

/// Publishes a content token: a blank check becomes a full token carrying
/// the oracle's metadata and the caller's deposit, stepping to Private or
/// Public ground per the visibility flag.
pub fn process_create_bc_token(
    ledger: &mut Ledger,
    signer: u64,
    name: String,
    amount: u64,
    config: BcTokenMetadata,
) -> (r: Result<(), ShihonError>)
    requires
        old(ledger).wf(),
    ensures
        final(ledger).wf(),
        match spec_create_bc_token_check(*old(ledger), signer, name@, config.is_public) {
            Some(e) => r == Err::<(), ShihonError>(e) && *final(ledger) == *old(ledger),
            None => r == Ok::<(), ShihonError>(()) && spec_create_bc_token_applied(
                *old(ledger),
                *final(ledger),
                name@,
                amount,
                config,
            ),
        },
{
    let idx = match ledger.find_bc_token(&name) {
        Some(i) => i,
        None => {
            return Err(ShihonError::BcTokenNotFound);
        },
    };
    proof {
        ledger.lemma_token_index_unique(name@, idx as int);
    }
    match ledger.bc_tokens[idx].assert_authorized(signer) {
        Ok(()) => (),
        Err(e) => {
            return Err(e);
        },
    }
    let state_ok: bool = match ledger.bc_tokens[idx].bc_token_state {
        BcTokenState::DraftBlankCheck => true,
        BcTokenState::HoldingOnPrivate => config.is_public,
        _ => false,
    };
    if !state_ok {
        return Err(ShihonError::InvalidBcTokenState);
    }
    let new_state = if config.is_public {
        BcTokenState::PublicOnTheGround
    } else {
        BcTokenState::HoldingOnPrivate
    };
    ledger.bc_tokens[idx].amount_of_coin = amount;
    ledger.bc_tokens[idx].bc_token_state = new_state;
    ledger.bc_tokens[idx].config = BcTokenMetadata {
        account_type: ShihonAccountType::BcTokenMetadata,
        content_type: config.content_type,
        content_fingerprint: config.content_fingerprint,
        updated_at: config.updated_at,
        version: config.version,
        is_public: config.is_public,
    };
    Ok(())
}

} // verus!
