//! Voting for CC: the terminal governance vote of a ring.

use crate::cc_vote_record::CCVoteRecord;
use crate::cc_vote_record::Vote;
use crate::enums::BcTokenState;
use crate::enums::ShihonAccountType;
use crate::error::ShihonError;
use crate::ledger::Ledger;
use crate::tanistry::Tanistry;
use vstd::prelude::*;

verus! {

/// True when the identity already voted in this ring's epoch.
pub open spec fn spec_has_voted(ring: Tanistry, who: u64) -> bool {
    exists|i: int|
        0 <= i < ring.cc_vote_records@.len()
            && (#[trigger] ring.cc_vote_records@[i]).governing_token_owner == who
}

/// Why voting would fail: no such ring, a sealed ring, a round counter
/// below the vote-eligibility threshold, a voter who is not an admitted
/// candidate, a voter who already cast this epoch, or a ring token outside
/// the voting window.
pub open spec fn spec_vote_for_cc_check(l: Ledger, signer: u64, tanistry: u64) -> Option<
    ShihonError,
> {
    if tanistry as int >= l.tanistries@.len() {
        Some(ShihonError::TanistryNotFound)
    } else {
        let ring = l.tanistries@[tanistry as int];
        if ring.is_sealed {
            Some(ShihonError::InvalidTanistryState)
        } else if ring.number_of_round < ring.config.min_round_for_cc_vote {
            Some(ShihonError::VotingNotEnabled)
        } else if !ring.spec_is_candidate(signer) {
            Some(ShihonError::CandidateLimitRecordNotFound)
        } else if spec_has_voted(ring, signer) {
            Some(ShihonError::VoteAlreadyCast)
        } else if !l.spec_has_token(ring.bc_token_name@) {
            Some(ShihonError::BcTokenNotFound)
        } else if !(l.bc_tokens@[l.spec_token_index(ring.bc_token_name@)].bc_token_state
            == BcTokenState::TanistrySetIn || l.bc_tokens@[l.spec_token_index(
            ring.bc_token_name@,
        )].bc_token_state == BcTokenState::EnableToVoteToCC) {
            Some(ShihonError::InvalidBcTokenState)
        } else {
            None
        }
    }
}

/// What voting does: one immutable vote record appears, weighted by the
/// voter's deposit at cast time, and the ring's token steps to
/// EnableToVoteToCC; nothing else moves.  How the cast votes combine into
/// a final outcome is a separate, swappable tally policy.
pub open spec fn spec_vote_for_cc_applied(
    old_l: Ledger,
    new_l: Ledger,
    signer: u64,
    tanistry: u64,
    vote: Vote,
    counting_time: u64,
) -> bool {
    let t = tanistry as int;
    let r0 = old_l.tanistries@[t];
    let r1 = new_l.tanistries@[t];
    let ti = old_l.spec_token_index(r0.bc_token_name@);
    &&& new_l.bc_tokens@ == old_l.bc_tokens@.update(
        ti,
        crate::bc_token::BcToken {
            bc_token_state: BcTokenState::EnableToVoteToCC,
            ..old_l.bc_tokens@[ti]
        },
    )
    &&& new_l.kicker_coin_owner_records@ == old_l.kicker_coin_owner_records@
    &&& new_l.tanistries@.len() == old_l.tanistries@.len()
    &&& forall|j: int|
        0 <= j < old_l.tanistries@.len() && j != t ==> new_l.tanistries@[j]
            == old_l.tanistries@[j]
    &&& r1 == (Tanistry { cc_vote_records: r1.cc_vote_records, ..r0 })
    &&& r1.cc_vote_records@.len() == r0.cc_vote_records@.len() + 1
    &&& r1.cc_vote_records@.subrange(0, r0.cc_vote_records@.len() as int)
        == r0.cc_vote_records@
    &&& {
        let rec = r1.cc_vote_records@.last();
        &&& rec.account_type == ShihonAccountType::CCVoteRecord
        &&& rec.governing_token_owner == signer
        &&& rec.counting_time == counting_time
        &&& rec.is_relinquished == false
        &&& rec.voter_weight == r0.candidate_limit_record_list@[r0.spec_candidate_index(
            signer,
        )].candidate_token_deposit_amount
        &&& rec.vote == vote
    }
}

/// Casts the terminal vote: enabled once the round counter crosses the
/// vote-eligibility threshold; each admitted candidate votes at most once
/// per epoch, with the weight fixed at cast time.
#[verifier::rlimit(50)]
pub fn process_vote_for_cc(
    ledger: &mut Ledger,
    signer: u64,
    tanistry: u64,
    vote: Vote,
    counting_time: u64,
) -> (r: Result<(), ShihonError>)
    requires
        old(ledger).wf(),
    ensures
        final(ledger).wf(),
        match spec_vote_for_cc_check(*old(ledger), signer, tanistry) {
            Some(e) => r == Err::<(), ShihonError>(e) && *final(ledger) == *old(ledger),
            None => r == Ok::<(), ShihonError>(()) && spec_vote_for_cc_applied(
                *old(ledger),
                *final(ledger),
                signer,
                tanistry,
                vote,
                counting_time,
            ),
        },
{
    if tanistry >= ledger.tanistries.len() as u64 {
        return Err(ShihonError::TanistryNotFound);
    }
    let t = tanistry as usize;
    if ledger.tanistries[t].is_sealed {
        return Err(ShihonError::InvalidTanistryState);
    }
    if ledger.tanistries[t].number_of_round < ledger.tanistries[t].config.min_round_for_cc_vote {
        return Err(ShihonError::VotingNotEnabled);
    }
    let ci = match ledger.tanistries[t].find_candidate(signer) {
        Some(i) => i,
        None => {
            return Err(ShihonError::CandidateLimitRecordNotFound);
        },
    };
    proof {
        ledger.tanistries@[t as int].lemma_candidate_index_unique(signer, ci as int);
    }
    if has_voted(&ledger.tanistries[t], signer) {
        return Err(ShihonError::VoteAlreadyCast);
    }
    let token_name = ledger.tanistries[t].bc_token_name.clone();
    let tidx = match ledger.find_bc_token(&token_name) {
        Some(i) => i,
        None => {
            return Err(ShihonError::BcTokenNotFound);
        },
    };
    proof {
        ledger.lemma_token_index_unique(token_name@, tidx as int);
    }
    let state_ok: bool = match ledger.bc_tokens[tidx].bc_token_state {
        BcTokenState::TanistrySetIn => true,
        BcTokenState::EnableToVoteToCC => true,
        _ => false,
    };
    if !state_ok {
        return Err(ShihonError::InvalidBcTokenState);
    }
    let weight =
        ledger.tanistries[t].candidate_limit_record_list[ci].candidate_token_deposit_amount;
    let record = CCVoteRecord {
        account_type: ShihonAccountType::CCVoteRecord,
        governing_token_owner: signer,
        counting_time,
        is_relinquished: false,
        voter_weight: weight,
        vote,
    };
    ledger.bc_tokens[tidx].bc_token_state = BcTokenState::EnableToVoteToCC;
    ledger.tanistries[t].cc_vote_records.push(record);
    proof {
        let r0 = old(ledger).tanistries@[t as int];
        let r1 = ledger.tanistries@[t as int];
        assert(r1.cc_vote_records@.subrange(0, r0.cc_vote_records@.len() as int)
            =~= r0.cc_vote_records@);
        assert(r1.wf_votes());
        assert(ledger.wf());
    }
    Ok(())
}

/// Decides whether the identity already voted in this ring's epoch.
fn has_voted(ring: &Tanistry, who: u64) -> (r: bool)
    ensures
        r == spec_has_voted(*ring, who),
{
    let n = ring.cc_vote_records.len();
    let mut i: usize = 0;
    while i < n
        invariant
            0 <= i <= n,
            n == ring.cc_vote_records@.len(),
            forall|j: int|
                0 <= j < i ==> (#[trigger] ring.cc_vote_records@[j]).governing_token_owner
                    != who,
        decreases n - i,
    {
        if ring.cc_vote_records[i].governing_token_owner == who {
            return true;
        }
        i = i + 1;
    }
    false
}

} // verus!
