//! Denying a KickerCoin: the coordinator refuses the escrow.

use crate::error::ShihonError;
use crate::ledger::Ledger;
use vstd::prelude::*;

verus! {

/// Why denial would fail: no live escrow record for the pair, or a record
/// the coordinator already accepted — an accepted escrow can never be
/// denied afterwards.
pub open spec fn spec_deny_kicker_coin_check(l: Ledger, signer: u64, kicker: u64) -> Option<
    ShihonError,
> {
    if !l.spec_has_escrow(kicker, signer) {
        Some(ShihonError::KickerCoinOwnerRecordNotFound)
    } else if l.kicker_coin_owner_records@[l.spec_escrow_index(kicker, signer)].is_kick_off {
        Some(ShihonError::KickerCoinAlreadyKickedOff)
    } else {
        None
    }
}

/// What denial does: the pending record leaves the ledger — its escrow is
/// refunded to the kicker by the custody collaborator — and no ring is
/// opened; nothing else moves.
pub open spec fn spec_deny_kicker_coin_applied(
    old_l: Ledger,
    new_l: Ledger,
    signer: u64,
    kicker: u64,
) -> bool {
    let i = old_l.spec_escrow_index(kicker, signer);
    &&& new_l.bc_tokens@ == old_l.bc_tokens@
    &&& new_l.tanistries@ == old_l.tanistries@
    &&& new_l.kicker_coin_owner_records@ == old_l.kicker_coin_owner_records@.remove(i)
}

/// Denies a KickerCoin: only the named coordinator may, only while the
/// record is pending; the record closes and the escrow goes back.
pub fn process_deny_kicker_coin(ledger: &mut Ledger, signer: u64, kicker: u64) -> (r: Result<
    (),
    ShihonError,
>)
    requires
        old(ledger).wf(),
    ensures
        final(ledger).wf(),
        match spec_deny_kicker_coin_check(*old(ledger), signer, kicker) {
            Some(e) => r == Err::<(), ShihonError>(e) && *final(ledger) == *old(ledger),
            None => r == Ok::<(), ShihonError>(()) && spec_deny_kicker_coin_applied(
                *old(ledger),
                *final(ledger),
                signer,
                kicker,
            ),
        },
{
    let idx = match ledger.find_kicker_coin_owner_record(kicker, signer) {
        Some(i) => i,
        None => {
            return Err(ShihonError::KickerCoinOwnerRecordNotFound);
        },
    };
    proof {
        ledger.lemma_escrow_index_unique(kicker, signer, idx as int);
    }
    if ledger.kicker_coin_owner_records[idx].is_kick_off {
        return Err(ShihonError::KickerCoinAlreadyKickedOff);
    }
    let ghost old_records = ledger.kicker_coin_owner_records@;
    let _removed = ledger.kicker_coin_owner_records.remove(idx);
    proof {
        assert forall|i: int, j: int|
            0 <= i < j < ledger.kicker_coin_owner_records@.len() implies !((
        ledger.kicker_coin_owner_records@[i]).kicker_coin_holder
            == (ledger.kicker_coin_owner_records@[j]).kicker_coin_holder
            && ledger.kicker_coin_owner_records@[i].coordinator
            == ledger.kicker_coin_owner_records@[j].coordinator) by {
            let oi = if i < idx {
                i
            } else {
                i + 1
            };
            let oj = if j < idx {
                j
            } else {
                j + 1
            };
            assert(ledger.kicker_coin_owner_records@[i] == old_records[oi]);
            assert(ledger.kicker_coin_owner_records@[j] == old_records[oj]);
        }
    }
    Ok(())
}

} // verus!
