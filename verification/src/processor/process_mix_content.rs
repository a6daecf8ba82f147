//! Mixing content: this round's pair jointly signs a shared content link.

use crate::enums::BcTokenState;
use crate::enums::ShihonAccountType;
use crate::error::ShihonError;
use crate::ledger::Ledger;
use crate::mix_content_record::MixContentRecord;
use crate::mix_content_record::OptionMixResult;
use crate::tanistry::Tanistry;
use vstd::prelude::*;

verus! {

/// True when the identity already sits in an unresolved pair of the ring's
/// current round.
pub open spec fn spec_round_busy(ring: Tanistry, who: u64) -> bool {
    exists|i: int|
        0 <= i < ring.mix_content_records@.len() && (#[trigger] ring.mix_content_records@[i]).round
            == ring.number_of_round && ring.mix_content_records@[i].spec_unresolved() && (
        ring.mix_content_records@[i].rater_candidate == who
            || ring.mix_content_records@[i].buddy_candidate == who)
}

/// True when an unresolved record for exactly this pair already stands in
/// the current round.
pub open spec fn spec_round_pair_exists(ring: Tanistry, rater: u64, buddy: u64) -> bool {
    exists|i: int|
        0 <= i < ring.mix_content_records@.len() && (#[trigger] ring.mix_content_records@[i]).round
            == ring.number_of_round && ring.mix_content_records@[i].spec_unresolved()
            && ring.mix_content_records@[i].rater_candidate == rater
            && ring.mix_content_records@[i].buddy_candidate == buddy
}

/// Why mixing would fail: no such ring, a sealed ring, a pair of one
/// person, a token outside the mixing window, a party that is not an
/// admitted candidate, a record this pair already holds this round, a pair
/// that is not this round's deterministic pairing, or a party already busy
/// in another unresolved pair this round.
pub open spec fn spec_mix_content_check(
    l: Ledger,
    rater: u64,
    buddy: u64,
    tanistry: u64,
) -> Option<ShihonError> {
    if tanistry as int >= l.tanistries@.len() {
        Some(ShihonError::TanistryNotFound)
    } else {
        let ring = l.tanistries@[tanistry as int];
        if ring.is_sealed {
            Some(ShihonError::InvalidTanistryState)
        } else if rater == buddy {
            Some(ShihonError::InvalidMixPair)
        } else if !l.spec_has_token(ring.bc_token_name@) {
            Some(ShihonError::BcTokenNotFound)
        } else if !(l.bc_tokens@[l.spec_token_index(ring.bc_token_name@)].bc_token_state
            == BcTokenState::EnableToCandidate || l.bc_tokens@[l.spec_token_index(
            ring.bc_token_name@,
        )].bc_token_state == BcTokenState::TanistrySetIn) {
            Some(ShihonError::InvalidBcTokenState)
        } else if !(ring.spec_is_candidate(rater) && ring.spec_is_candidate(buddy)) {
            Some(ShihonError::CandidateLimitRecordNotFound)
        } else if spec_round_pair_exists(ring, rater, buddy) {
            Some(ShihonError::MixContentRecordAlreadyExists)
        } else if !ring.spec_is_round_pair(rater, buddy) {
            Some(ShihonError::InvalidMixPair)
        } else if spec_round_busy(ring, rater) || spec_round_busy(ring, buddy) {
            Some(ShihonError::InvalidMixPair)
        } else {
            None
        }
    }
}

/// What mixing does: one unresolved mix record appears carrying the shared
/// link, the pair, the current round and the ring fingerprint at pairing
/// time, and the ring's token steps to TanistrySetIn; nothing else moves.
pub open spec fn spec_mix_content_applied(
    old_l: Ledger,
    new_l: Ledger,
    rater: u64,
    buddy: u64,
    tanistry: u64,
    encrypted_link: Seq<char>,
) -> bool {
    let t = tanistry as int;
    let r0 = old_l.tanistries@[t];
    let r1 = new_l.tanistries@[t];
    let ti = old_l.spec_token_index(r0.bc_token_name@);
    &&& new_l.bc_tokens@ == old_l.bc_tokens@.update(
        ti,
        crate::bc_token::BcToken {
            bc_token_state: BcTokenState::TanistrySetIn,
            ..old_l.bc_tokens@[ti]
        },
    )
    &&& new_l.kicker_coin_owner_records@ == old_l.kicker_coin_owner_records@
    &&& new_l.tanistries@.len() == old_l.tanistries@.len()
    &&& forall|j: int|
        0 <= j < old_l.tanistries@.len() && j != t ==> new_l.tanistries@[j]
            == old_l.tanistries@[j]
    &&& r1 == (Tanistry { mix_content_records: r1.mix_content_records, ..r0 })
    &&& r1.mix_content_records@.len() == r0.mix_content_records@.len() + 1
    &&& r1.mix_content_records@.subrange(0, r0.mix_content_records@.len() as int)
        == r0.mix_content_records@
    &&& {
        let rec = r1.mix_content_records@.last();
        &&& rec.account_type == ShihonAccountType::MixContentRecord
        &&& rec.encrypted_link@ == encrypted_link
        &&& rec.rater_candidate == rater
        &&& rec.buddy_candidate == buddy
        &&& rec.option_mix_result == OptionMixResult::Unresolved
        &&& rec.round == r0.number_of_round
        &&& rec.finger_print_of_mixed_content == r0.building_fingerprint
    }
}

/// Mixes two candidates' content: authorized jointly by this round's
/// deterministic pair, writing the single unresolved record the rater will
/// later resolve.
#[verifier::rlimit(50)]
pub fn process_mix_content(
    ledger: &mut Ledger,
    rater: u64,
    buddy: u64,
    tanistry: u64,
    encrypted_link: String,
) -> (r: Result<(), ShihonError>)
    requires
        old(ledger).wf(),
    ensures
        final(ledger).wf(),
        match spec_mix_content_check(*old(ledger), rater, buddy, tanistry) {
            Some(e) => r == Err::<(), ShihonError>(e) && *final(ledger) == *old(ledger),
            None => r == Ok::<(), ShihonError>(()) && spec_mix_content_applied(
                *old(ledger),
                *final(ledger),
                rater,
                buddy,
                tanistry,
                encrypted_link@,
            ),
        },
{
    if tanistry >= ledger.tanistries.len() as u64 {
        return Err(ShihonError::TanistryNotFound);
    }
    let t = tanistry as usize;
    if ledger.tanistries[t].is_sealed {
        return Err(ShihonError::InvalidTanistryState);
    }
    if rater == buddy {
        return Err(ShihonError::InvalidMixPair);
    }
    let token_name = ledger.tanistries[t].bc_token_name.clone();
    let tidx = match ledger.find_bc_token(&token_name) {
        Some(i) => i,
        None => {
            return Err(ShihonError::BcTokenNotFound);
        },
    };
    proof {
        ledger.lemma_token_index_unique(token_name@, tidx as int);
    }
    let state_ok: bool = match ledger.bc_tokens[tidx].bc_token_state {
        BcTokenState::EnableToCandidate => true,
        BcTokenState::TanistrySetIn => true,
        _ => false,
    };
    if !state_ok {
        return Err(ShihonError::InvalidBcTokenState);
    }
    if ledger.tanistries[t].find_candidate(rater).is_none() {
        return Err(ShihonError::CandidateLimitRecordNotFound);
    }
    if ledger.tanistries[t].find_candidate(buddy).is_none() {
        return Err(ShihonError::CandidateLimitRecordNotFound);
    }
    if round_pair_exists(&ledger.tanistries[t], rater, buddy) {
        return Err(ShihonError::MixContentRecordAlreadyExists);
    }
    if !ledger.tanistries[t].is_round_pair(rater, buddy) {
        return Err(ShihonError::InvalidMixPair);
    }
    if round_busy(&ledger.tanistries[t], rater) || round_busy(&ledger.tanistries[t], buddy) {
        return Err(ShihonError::InvalidMixPair);
    }
    let round = ledger.tanistries[t].number_of_round;
    let fingerprint = ledger.tanistries[t].building_fingerprint;
    let record = MixContentRecord {
        account_type: ShihonAccountType::MixContentRecord,
        encrypted_link,
        rater_candidate: rater,
        buddy_candidate: buddy,
        option_mix_result: OptionMixResult::Unresolved,
        round,
        finger_print_of_mixed_content: fingerprint,
    };
    ledger.bc_tokens[tidx].bc_token_state = BcTokenState::TanistrySetIn;
    ledger.tanistries[t].mix_content_records.push(record);
    proof {
        let r0 = old(ledger).tanistries@[t as int];
        let r1 = ledger.tanistries@[t as int];
        let m0 = r0.mix_content_records@;
        let m1 = r1.mix_content_records@;
        assert(m1.subrange(0, m0.len() as int) =~= m0);
        assert forall|i: int|
            0 <= i < m0.len() implies !(m0[i].rater_candidate == rater
            && m0[i].buddy_candidate == buddy && m0[i].round == round) by {
            if m0[i].rater_candidate == rater && m0[i].buddy_candidate == buddy && m0[i].round
                == round {
                if m0[i].spec_unresolved() {
                    assert(spec_round_pair_exists(r0, rater, buddy));
                } else {
                    assert(m0[i].round < r0.number_of_round);
                }
            }
        }
        assert(r1.wf_candidates());
        assert(r1.wf_mixes());
        assert(r1.wf_rates());
        assert(r1.wf_fingerprint());
        assert(r1.wf_listings());
        assert(r1.wf_votes());
        assert(ledger.wf());
    }
    Ok(())
}

/// Decides whether an unresolved record of exactly this pair already stands
/// in the current round.
fn round_pair_exists(ring: &Tanistry, rater: u64, buddy: u64) -> (r: bool)
    ensures
        r == spec_round_pair_exists(*ring, rater, buddy),
{
    let n = ring.mix_content_records.len();
    let mut i: usize = 0;
    while i < n
        invariant
            0 <= i <= n,
            n == ring.mix_content_records@.len(),
            forall|j: int|
                0 <= j < i ==> !((#[trigger] ring.mix_content_records@[j]).round
                    == ring.number_of_round && ring.mix_content_records@[j].spec_unresolved()
                    && ring.mix_content_records@[j].rater_candidate == rater
                    && ring.mix_content_records@[j].buddy_candidate == buddy),
        decreases n - i,
    {
        let rec = &ring.mix_content_records[i];
        let unresolved: bool = match rec.option_mix_result {
            OptionMixResult::Unresolved => true,
            _ => false,
        };
        if rec.round == ring.number_of_round && unresolved && rec.rater_candidate == rater
            && rec.buddy_candidate == buddy {
            return true;
        }
        i = i + 1;
    }
    false
}

/// Decides whether the identity is already busy in an unresolved pair of
/// the current round.
fn round_busy(ring: &Tanistry, who: u64) -> (r: bool)
    ensures
        r == spec_round_busy(*ring, who),
{
    let n = ring.mix_content_records.len();
    let mut i: usize = 0;
    while i < n
        invariant
            0 <= i <= n,
            n == ring.mix_content_records@.len(),
            forall|j: int|
                0 <= j < i ==> !((#[trigger] ring.mix_content_records@[j]).round
                    == ring.number_of_round && ring.mix_content_records@[j].spec_unresolved() && (
                ring.mix_content_records@[j].rater_candidate == who
                    || ring.mix_content_records@[j].buddy_candidate == who)),
        decreases n - i,
    {
        let rec = &ring.mix_content_records[i];
        let unresolved: bool = match rec.option_mix_result {
            OptionMixResult::Unresolved => true,
            _ => false,
        };
        if rec.round == ring.number_of_round && unresolved && (rec.rater_candidate == who
            || rec.buddy_candidate == who) {
            return true;
        }
        i = i + 1;
    }
    false
}

} // verus!
