//! Approving a KickerCoin: the coordinator accepts and a ring opens.

use crate::enums::BcTokenState;
use crate::enums::ShihonAccountType;
use crate::error::ShihonError;
use crate::kicker_coin_owner_record::KickerCoinOwnerRecord;
use crate::ledger::Ledger;
use crate::tanistry::Tanistry;
use crate::tanistry::TanistryConfig;
use crate::tanistry::default_tanistry_config;
use crate::tanistry::spec_initial_fingerprint;
use crate::tanistry::mix64;
use vstd::prelude::*;

verus! {

/// The first sealed ring that crowned this identity and has no successor
/// yet, scanning from the given index on: the ring a fresh approval links
/// back to when its kicker is a crown.
pub open spec fn spec_predecessor_from(rings: Seq<Tanistry>, kicker: u64, i: int) -> Option<
    int,
>
    decreases rings.len() - i,
{
    if i < 0 || i >= rings.len() {
        None
    } else if rings[i].is_sealed && rings[i].crown == Some(kicker) && rings[i].next_tanistry_id
        is None {
        Some(i)
    } else {
        spec_predecessor_from(rings, kicker, i + 1)
    }
}

/// Why approval would fail: no live escrow record for the pair, a record
/// already accepted — acceptance happens exactly once — or a kicker token
/// no longer on public ground.
pub open spec fn spec_approve_kicker_coin_check(l: Ledger, signer: u64, kicker: u64) -> Option<
    ShihonError,
> {
    if !l.spec_has_escrow(kicker, signer) {
        Some(ShihonError::KickerCoinOwnerRecordNotFound)
    } else {
        let rec = l.kicker_coin_owner_records@[l.spec_escrow_index(kicker, signer)];
        if rec.is_kick_off {
            Some(ShihonError::KickerCoinAlreadyKickedOff)
        } else if !l.spec_has_token(rec.bc_token_name@) {
            Some(ShihonError::BcTokenNotFound)
        } else if l.bc_tokens@[l.spec_token_index(rec.bc_token_name@)].bc_token_state
            != BcTokenState::PublicOnTheGround {
            Some(ShihonError::InvalidBcTokenState)
        } else {
            None
        }
    }
}

/// What approval does: the escrow record kicks off, the kicker's token
/// steps to EnableToCandidate, and a fresh ring opens with an empty
/// admission ledger, a zero holding balance, the escrow amount as its limit
/// bar, and the predecessor link set when the kicker was a crown.
pub open spec fn spec_approve_kicker_coin_applied(
    old_l: Ledger,
    new_l: Ledger,
    signer: u64,
    kicker: u64,
    coordinator_input: Seq<char>,
) -> bool {
    let i = old_l.spec_escrow_index(kicker, signer);
    let rec = old_l.kicker_coin_owner_records@[i];
    let ti = old_l.spec_token_index(rec.bc_token_name@);
    let new_id = old_l.tanistries@.len() as int;
    let pred = spec_predecessor_from(old_l.tanistries@, kicker, 0);
    &&& new_l.kicker_coin_owner_records@ == old_l.kicker_coin_owner_records@.update(
        i,
        KickerCoinOwnerRecord { is_kick_off: true, ..rec },
    )
    &&& new_l.bc_tokens@ == old_l.bc_tokens@.update(
        ti,
        crate::bc_token::BcToken {
            bc_token_state: BcTokenState::EnableToCandidate,
            ..old_l.bc_tokens@[ti]
        },
    )
    &&& new_l.tanistries@.len() == old_l.tanistries@.len() + 1
    &&& forall|j: int|
        0 <= j < old_l.tanistries@.len() && Some(j) != pred ==> new_l.tanistries@[j]
            == old_l.tanistries@[j]
    &&& (pred matches Some(p) ==> new_l.tanistries@[p] == Tanistry {
        next_tanistry_id: Some(new_id as u64),
        ..old_l.tanistries@[p]
    })
    &&& {
        let t = new_l.tanistries@.last();
        &&& t.account_type == ShihonAccountType::Tanistry
        &&& t.bc_token_name@ == rec.bc_token_name@
        &&& t.kicker_coin_holder == kicker
        &&& t.coordinator == signer
        &&& t.coordinator_input@ == coordinator_input
        &&& t.config == default_config_of(rec.amount_of_kicker_coin)
        &&& t.next_tanistry_id is None
        &&& t.previous_tanistry_id == (match pred {
            Some(p) => Some(p as u64),
            None => None::<u64>,
        })
        &&& t.number_of_round == 0
        &&& t.building_fingerprint == spec_initial_fingerprint(kicker, signer)
        &&& t.holding_balance == 0
        &&& t.crown is None
        &&& t.is_sealed == false
        &&& t.candidate_limit_record_list@.len() == 0
        &&& t.mix_content_records@.len() == 0
        &&& t.rate_other_records@.len() == 0
        &&& t.outside_buyer_records@.len() == 0
        &&& t.cc_vote_records@.len() == 0
    }
}

/// The configuration a fresh ring opens with: the escrowed KickerCoin as
/// its limit bar, everything else at the protocol defaults.
pub open spec fn default_config_of(limit_bar: u64) -> TanistryConfig {
    TanistryConfig {
        candidate_limit_bar: limit_bar,
        rating_ceiling: crate::tanistry::DEFAULT_RATING_CEILING,
        rating_threshold: crate::tanistry::DEFAULT_RATING_THRESHOLD,
        exceeded_rate_cap: crate::tanistry::DEFAULT_EXCEEDED_RATE_CAP,
        min_round_for_crowning: crate::tanistry::DEFAULT_MIN_ROUND_FOR_CROWNING,
        min_round_for_cc_vote: crate::tanistry::DEFAULT_MIN_ROUND_FOR_CC_VOTE,
        sale_window: crate::tanistry::DEFAULT_SALE_WINDOW,
    }
}

/// Finds the sealed ring this kicker was crowned in, not yet linked onward.
fn find_predecessor(ledger: &Ledger, kicker: u64) -> (r: Option<usize>)
    ensures
        match r {
            Some(p) => p < ledger.tanistries@.len() && Some(p as int) == spec_predecessor_from(
                ledger.tanistries@,
                kicker,
                0,
            ),
            None => spec_predecessor_from(ledger.tanistries@, kicker, 0) is None,
        },
{
    let n = ledger.tanistries.len();
    let mut i: usize = 0;
    while i < n
        invariant
            0 <= i <= n,
            n == ledger.tanistries@.len(),
            spec_predecessor_from(ledger.tanistries@, kicker, 0) == spec_predecessor_from(
                ledger.tanistries@,
                kicker,
                i as int,
            ),
        decreases n - i,
    {
        let t = &ledger.tanistries[i];
        let crowned: bool = match t.crown {
            Some(c) => c == kicker,
            None => false,
        };
        if t.is_sealed && crowned && t.next_tanistry_id.is_none() {
            return Some(i);
        }
        i = i + 1;
    }
    None
}

/// Approves a KickerCoin: authorized by the named coordinator alone, it
/// kicks the escrow off exactly once, opens the Tanistry around the pair
/// and enables the kicker's token for candidates.
pub fn process_approve_kicker_coin(
    ledger: &mut Ledger,
    signer: u64,
    kicker: u64,
    coordinator_input: String,
) -> (r: Result<(), ShihonError>)
    requires
        old(ledger).wf(),
    ensures
        final(ledger).wf(),
        match spec_approve_kicker_coin_check(*old(ledger), signer, kicker) {
            Some(e) => r == Err::<(), ShihonError>(e) && *final(ledger) == *old(ledger),
            None => r == Ok::<(), ShihonError>(()) && spec_approve_kicker_coin_applied(
                *old(ledger),
                *final(ledger),
                signer,
                kicker,
                coordinator_input@,
            ),
        },
{
    let idx = match ledger.find_kicker_coin_owner_record(kicker, signer) {
        Some(i) => i,
        None => {
            return Err(ShihonError::KickerCoinOwnerRecordNotFound);
        },
    };
    proof {
        ledger.lemma_escrow_index_unique(kicker, signer, idx as int);
    }
    if ledger.kicker_coin_owner_records[idx].is_kick_off {
        return Err(ShihonError::KickerCoinAlreadyKickedOff);
    }
    let token_name = ledger.kicker_coin_owner_records[idx].bc_token_name.clone();
    let escrow_amount = ledger.kicker_coin_owner_records[idx].amount_of_kicker_coin;
    let tidx = match ledger.find_bc_token(&token_name) {
        Some(i) => i,
        None => {
            return Err(ShihonError::BcTokenNotFound);
        },
    };
    proof {
        ledger.lemma_token_index_unique(token_name@, tidx as int);
    }
    let state_ok: bool = match ledger.bc_tokens[tidx].bc_token_state {
        BcTokenState::PublicOnTheGround => true,
        _ => false,
    };
    if !state_ok {
        return Err(ShihonError::InvalidBcTokenState);
    }
    let pred = find_predecessor(ledger, kicker);
    let new_id: u64 = ledger.tanistries.len() as u64;
    ledger.kicker_coin_owner_records[idx].is_kick_off = true;
    ledger.bc_tokens[tidx].bc_token_state = BcTokenState::EnableToCandidate;
    let previous_tanistry_id: Option<u64> = match pred {
        Some(p) => Some(p as u64),
        None => None,
    };
    let fp0 = mix64(mix64(0, kicker), signer);
    let ring = Tanistry {
        account_type: ShihonAccountType::Tanistry,
        bc_token_name: token_name,
        kicker_coin_holder: kicker,
        coordinator: signer,
        coordinator_input,
        config: default_tanistry_config(escrow_amount),
        next_tanistry_id: None,
        previous_tanistry_id,
        number_of_round: 0,
        building_fingerprint: fp0,
        holding_balance: 0,
        crown: None,
        is_sealed: false,
        candidate_limit_record_list: Vec::new(),
        mix_content_records: Vec::new(),
        rate_other_records: Vec::new(),
        outside_buyer_records: Vec::new(),
        cc_vote_records: Vec::new(),
    };
    let ghost rings_before = ledger.tanistries@;
    ledger.tanistries.push(ring);
    if let Some(p) = pred {
        ledger.tanistries[p].next_tanistry_id = Some(new_id);
    }
    proof {
        assert(ledger.kicker_coin_owner_records@ == old(
            ledger,
        ).kicker_coin_owner_records@.update(
            idx as int,
            KickerCoinOwnerRecord {
                is_kick_off: true,
                ..old(ledger).kicker_coin_owner_records@[idx as int]
            },
        ));
        assert(ledger.bc_tokens@ == old(ledger).bc_tokens@.update(
            tidx as int,
            crate::bc_token::BcToken {
                bc_token_state: BcTokenState::EnableToCandidate,
                ..old(ledger).bc_tokens@[tidx as int]
            },
        ));
    }
    Ok(())
}

} // verus!
