//! Drafting a blank check: a content token with no content information yet.

use crate::bc_token::BcToken;
use crate::bc_token_metadata::BcTokenMetadata;
use crate::bc_token_metadata::ContentType;
use crate::enums::BcTokenState;
use crate::enums::ShihonAccountType;
use crate::error::ShihonError;
use crate::ledger::Ledger;
use vstd::prelude::*;

verus! {

/// Why drafting would fail: an empty name, or a token of this name already
/// in the registry.
pub open spec fn spec_draft_blank_check_check(l: Ledger, name: Seq<char>) -> Option<
    ShihonError,
> {
    if name.len() == 0 {
        Some(ShihonError::InvalidBcTokenName)
    } else if l.spec_has_token(name) {
        Some(ShihonError::BcTokenAlreadyExists)
    } else {
        None
    }
}

/// What drafting does: one new token in Draft state owned by the caller,
/// with no deposit, no authority and blank metadata; nothing else moves.
pub open spec fn spec_draft_blank_check_applied(
    old_l: Ledger,
    new_l: Ledger,
    signer: u64,
    name: Seq<char>,
    bc_token_mint: u64,
    now: i64,
) -> bool {
    &&& new_l.kicker_coin_owner_records@ == old_l.kicker_coin_owner_records@
    &&& new_l.tanistries@ == old_l.tanistries@
    &&& new_l.bc_tokens@.len() == old_l.bc_tokens@.len() + 1
    &&& new_l.bc_tokens@.subrange(0, old_l.bc_tokens@.len() as int) == old_l.bc_tokens@
    &&& {
        let tok = new_l.bc_tokens@.last();
        &&& tok.account_type == ShihonAccountType::BcToken
        &&& tok.bc_token_owner_pubkey == signer
        &&& tok.amount_of_coin == 0
        &&& tok.issue_at == now
        &&& tok.authority is None
        &&& tok.name@ == name
        &&& tok.bc_token_mint == bc_token_mint
        &&& tok.bc_token_state == BcTokenState::DraftBlankCheck
        &&& tok.config.account_type == ShihonAccountType::Uninitialized
        &&& tok.config.content_fingerprint == 0
        &&& tok.config.is_public == false
    }
}

/// Creates a blank check: a draft token holding only the issuer and its
/// name, waiting for content and deposit.
pub fn process_draft_blank_check(
    ledger: &mut Ledger,
    signer: u64,
    name: String,
    bc_token_mint: u64,
    now: i64,
) -> (r: Result<(), ShihonError>)
    requires
        old(ledger).wf(),
    ensures
        final(ledger).wf(),
        match spec_draft_blank_check_check(*old(ledger), name@) {
            Some(e) => r == Err::<(), ShihonError>(e) && *final(ledger) == *old(ledger),
            None => r == Ok::<(), ShihonError>(()) && spec_draft_blank_check_applied(
                *old(ledger),
                *final(ledger),
                signer,
                name@,
                bc_token_mint,
                now,
            ),
        },
{
    if name.as_str().is_empty() {
        return Err(ShihonError::InvalidBcTokenName);
    }
    if ledger.find_bc_token(&name).is_some() {
        return Err(ShihonError::BcTokenAlreadyExists);
    }
    let token = BcToken {
        account_type: ShihonAccountType::BcToken,
        bc_token_owner_pubkey: signer,
        amount_of_coin: 0,
        issue_at: now,
        authority: None,
        name,
        bc_token_mint,
        bc_token_state: BcTokenState::DraftBlankCheck,
        config: BcTokenMetadata {
            account_type: ShihonAccountType::Uninitialized,
            content_type: ContentType::Ordinary,
            content_fingerprint: 0,
            updated_at: 0,
            version: String::new(),
            is_public: false,
        },
    };
    let ghost old_tokens = ledger.bc_tokens@;
    ledger.bc_tokens.push(token);
    proof {
        assert(ledger.bc_tokens@.subrange(0, old_tokens.len() as int) =~= old_tokens);
    }
    Ok(())
}

} // verus!
