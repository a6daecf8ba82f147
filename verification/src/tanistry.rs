//! The Tanistry ring: the aggregate grouping a kicker, a coordinator and the
//! admitted candidates, with its round counter and running fingerprint.

use crate::candidate_limit_record::CandidateLimitRecord;
use crate::cc_vote_record::CCVoteRecord;
use crate::enums::ShihonAccountType;
use crate::error::ShihonError;
use crate::mix_content_record::MixContentRecord;
use crate::mix_content_record::OptionMixResult;
use crate::outside_buyer_record::OutsideBuyerRecord;
use crate::rate_other_record::RateOtherRecord;
use vstd::prelude::*;

verus! {

/// Default limit on the rating a single round may carry.
pub const DEFAULT_RATING_CEILING: u64 = 1000;

/// Default threshold deciding whether a rated mix succeeded.
pub const DEFAULT_RATING_THRESHOLD: u64 = 50;

/// Default cap above which a candidate's rated stake becomes sellable.
pub const DEFAULT_EXCEEDED_RATE_CAP: u64 = 1000;

/// Default number of rounds before a crown may be chosen.
pub const DEFAULT_MIN_ROUND_FOR_CROWNING: u64 = 3;

/// Default number of rounds before the terminal vote opens.
pub const DEFAULT_MIN_ROUND_FOR_CC_VOTE: u64 = 5;

/// Default time a resale listing stays open.
pub const DEFAULT_SALE_WINDOW: i64 = 86400;

/// Per-ring configuration, fixed when the escrow is approved.
#[derive(Clone, Copy, Debug, PartialEq, Eq, Structural)]
pub struct TanistryConfig {
    /// The limit bar: cumulative candidate stake never exceeds this.
    pub candidate_limit_bar: u64,
    /// Per-round ceiling on a single rating.
    pub rating_ceiling: u64,
    /// Ratings at or above this resolve a mix to Succeeded.
    pub rating_threshold: u64,
    /// Rated stake above this cap becomes sellable surplus.
    pub exceeded_rate_cap: u64,
    /// Rounds required before crowning.
    pub min_round_for_crowning: u64,
    /// Rounds required before the terminal vote.
    pub min_round_for_cc_vote: u64,
    /// How long a resale listing stays open.
    pub sale_window: i64,
}

/// Builds the default ring configuration around the given limit bar.
pub fn default_tanistry_config(candidate_limit_bar: u64) -> (r: TanistryConfig)
    ensures
        r == (TanistryConfig {
            candidate_limit_bar,
            rating_ceiling: DEFAULT_RATING_CEILING,
            rating_threshold: DEFAULT_RATING_THRESHOLD,
            exceeded_rate_cap: DEFAULT_EXCEEDED_RATE_CAP,
            min_round_for_crowning: DEFAULT_MIN_ROUND_FOR_CROWNING,
            min_round_for_cc_vote: DEFAULT_MIN_ROUND_FOR_CC_VOTE,
            sale_window: DEFAULT_SALE_WINDOW,
        }),
{
    TanistryConfig {
        candidate_limit_bar,
        rating_ceiling: DEFAULT_RATING_CEILING,
        rating_threshold: DEFAULT_RATING_THRESHOLD,
        exceeded_rate_cap: DEFAULT_EXCEEDED_RATE_CAP,
        min_round_for_crowning: DEFAULT_MIN_ROUND_FOR_CROWNING,
        min_round_for_cc_vote: DEFAULT_MIN_ROUND_FOR_CC_VOTE,
        sale_window: DEFAULT_SALE_WINDOW,
    }
}

/// The ring itself.  It owns the round counters, the running fingerprint,
/// the holding custody balance and all the records created inside it; its
/// index in the ledger is its identity.
#[derive(Debug)]
pub struct Tanistry {
    /// Account type discriminator.
    pub account_type: ShihonAccountType,
    /// The content token the ring was kicked off with.
    pub bc_token_name: String,
    /// The kicker whose escrow opened the ring.
    pub kicker_coin_holder: u64,
    /// The coordinator who approved the escrow.
    pub coordinator: u64,
    /// The coordinator's input handed over at approval; the mix engine's
    /// external minting reads it.
    pub coordinator_input: String,
    /// Ring configuration, fixed at approval.
    pub config: TanistryConfig,
    /// Successor ring, linked once the crown kicks onward.
    pub next_tanistry_id: Option<u64>,
    /// Predecessor ring, linked at approval when the kicker was a crown.
    pub previous_tanistry_id: Option<u64>,
    /// Round counter: the number of ratings resolved so far.
    pub number_of_round: u64,
    /// Running fingerprint folding every rating in order.
    pub building_fingerprint: u64,
    /// Balance of the ring's holding custody account.
    pub holding_balance: u64,
    /// The elected crown, set exactly when the ring is sealed.
    pub crown: Option<u64>,
    /// True once succession completed; a sealed ring refuses every mutation
    /// except the successor link.
    pub is_sealed: bool,
    /// Admission records, in admission order.
    pub candidate_limit_record_list: Vec<CandidateLimitRecord>,
    /// Mix records, in creation order.
    pub mix_content_records: Vec<MixContentRecord>,
    /// Rating records, in creation order.
    pub rate_other_records: Vec<RateOtherRecord>,
    /// Resale listings, in creation order.
    pub outside_buyer_records: Vec<OutsideBuyerRecord>,
    /// Terminal votes, in cast order.
    pub cc_vote_records: Vec<CCVoteRecord>,
}

/// Sum of the deposited amounts over a list of admission records.
pub open spec fn spec_sum_deposits(s: Seq<CandidateLimitRecord>) -> int
    decreases s.len(),
{
    if s.len() == 0 {
        0
    } else {
        spec_sum_deposits(s.drop_last()) + s.last().candidate_token_deposit_amount
    }
}

/// Appending a record adds exactly its amount to the sum.
pub proof fn lemma_sum_deposits_push(s: Seq<CandidateLimitRecord>, r: CandidateLimitRecord)
    ensures
        spec_sum_deposits(s.push(r)) == spec_sum_deposits(s) + r.candidate_token_deposit_amount,
{
    assert(s.push(r).drop_last() =~= s);
}

/// Replacing one record moves the sum by exactly the amount delta.
pub proof fn lemma_sum_deposits_update(
    s: Seq<CandidateLimitRecord>,
    i: int,
    r: CandidateLimitRecord,
)
    requires
        0 <= i < s.len(),
    ensures
        spec_sum_deposits(s.update(i, r)) == spec_sum_deposits(s)
            - s[i].candidate_token_deposit_amount + r.candidate_token_deposit_amount,
    decreases s.len(),
{
    if i == s.len() - 1 {
        assert(s.update(i, r).drop_last() =~= s.drop_last());
        assert(s.update(i, r).last() == r);
    } else {
        assert(s.update(i, r).drop_last() =~= s.drop_last().update(i, r));
        assert(s.update(i, r).last() == s.last());
        lemma_sum_deposits_update(s.drop_last(), i, r);
    }
}

/// Every record's amount is bounded by the whole sum, and the sum is never
/// negative.
pub proof fn lemma_sum_deposits_bounds(s: Seq<CandidateLimitRecord>, i: int)
    requires
        0 <= i < s.len(),
    ensures
        spec_sum_deposits(s) >= s[i].candidate_token_deposit_amount,
        spec_sum_deposits(s) >= 0,
    decreases s.len(),
{
    lemma_sum_deposits_nonneg(s);
    if i == s.len() - 1 {
        lemma_sum_deposits_nonneg(s.drop_last());
    } else {
        lemma_sum_deposits_bounds(s.drop_last(), i);
    }
}

/// The sum of deposits is never negative.
pub proof fn lemma_sum_deposits_nonneg(s: Seq<CandidateLimitRecord>)
    ensures
        spec_sum_deposits(s) >= 0,
    decreases s.len(),
{
    if s.len() > 0 {
        lemma_sum_deposits_nonneg(s.drop_last());
    }
}

/// The golden-ratio multiplier of the fingerprint accumulator.
pub const FINGERPRINT_MULTIPLIER: u64 = 0x9E3779B97F4A7C15;

/// One step of the running fingerprint: multiply by an odd constant and add
/// the new word, truncated to the word size.  Collision-resistant enough for
/// a verifiable summary and exactly reproducible on every node.
pub open spec fn spec_mix64(a: u64, b: u64) -> u64 {
    (((a * FINGERPRINT_MULTIPLIER) + b) % 0x10000000000000000) as u64
}

/// Computes one fingerprint step.
pub fn mix64(a: u64, b: u64) -> (r: u64)
    ensures
        r == spec_mix64(a, b),
{
    proof {
        assert((a as int) * (FINGERPRINT_MULTIPLIER as int) + (b as int) < 0x100000000000000000000000000000000) by (nonlinear_arith)
            requires
                a <= 0xFFFFFFFFFFFFFFFF,
                b <= 0xFFFFFFFFFFFFFFFF,
        {
        }
    }
    let wide: u128 = (a as u128) * (FINGERPRINT_MULTIPLIER as u128) + (b as u128);
    (wide % 0x10000000000000000u128) as u64
}

/// The fingerprint a ring starts with: its two principals folded into zero.
pub open spec fn spec_initial_fingerprint(kicker: u64, coordinator: u64) -> u64 {
    spec_mix64(spec_mix64(0, kicker), coordinator)
}

/// The fingerprint after folding a sequence of ratings, each as the pair of
/// the mix record it resolved and the rating amount.
pub open spec fn spec_fold_fingerprint(rates: Seq<RateOtherRecord>, fp0: u64) -> u64
    decreases rates.len(),
{
    if rates.len() == 0 {
        fp0
    } else {
        spec_mix64(
            spec_mix64(
                spec_fold_fingerprint(rates.drop_last(), fp0),
                rates.last().mix_content_record,
            ),
            rates.last().rate_amount,
        )
    }
}

/// Folding one more rating is one more double step.
pub proof fn lemma_fold_fingerprint_push(rates: Seq<RateOtherRecord>, fp0: u64, r: RateOtherRecord)
    ensures
        spec_fold_fingerprint(rates.push(r), fp0) == spec_mix64(
            spec_mix64(spec_fold_fingerprint(rates, fp0), r.mix_content_record),
            r.rate_amount,
        ),
{
    assert(rates.push(r).drop_last() =~= rates);
}

impl Tanistry {
    /// The sequence of admitted candidate identities, in admission order.
    pub open spec fn spec_candidates(self) -> Seq<u64> {
        self.candidate_limit_record_list@.map_values(|r: CandidateLimitRecord| r.candidate_token_owner)
    }

    /// True when the identity holds an admission record in this ring.
    pub open spec fn spec_is_candidate(self, who: u64) -> bool {
        exists|i: int|
            0 <= i < self.candidate_limit_record_list@.len()
                && self.candidate_limit_record_list@[i].candidate_token_owner == who
    }

    /// The admission record index of an identity, where one exists.
    pub open spec fn spec_candidate_index(self, who: u64) -> int {
        choose|i: int|
            0 <= i < self.candidate_limit_record_list@.len()
                && self.candidate_limit_record_list@[i].candidate_token_owner == who
    }

    /// Finds the admission record of an identity.
    pub fn find_candidate(&self, who: u64) -> (r: Option<usize>)
        ensures
            match r {
                Some(i) => i < self.candidate_limit_record_list@.len()
                    && self.candidate_limit_record_list@[i as int].candidate_token_owner == who,
                None => !self.spec_is_candidate(who),
            },
    {
        let n = self.candidate_limit_record_list.len();
        let mut i: usize = 0;
        while i < n
            invariant
                0 <= i <= n,
                n == self.candidate_limit_record_list@.len(),
                forall|j: int|
                    0 <= j < i ==> self.candidate_limit_record_list@[j].candidate_token_owner
                        != who,
            decreases n - i,
        {
            if self.candidate_limit_record_list[i].candidate_token_owner == who {
                return Some(i);
            }
            i = i + 1;
        }
        None
    }
}

/// The admission order rotated left by `r`: positions `r..` first, then the
/// head.  A rotation keeps every element and repeats none.
pub open spec fn spec_rotated(cands: Seq<u64>, r: int) -> Seq<u64>
    recommends
        0 <= r <= cands.len(),
{
    cands.subrange(r, cands.len() as int) + cands.subrange(0, r)
}

/// The deterministic seed of the current round: fingerprint and round index
/// folded together, so any two nodes validating the same history agree.
pub open spec fn spec_round_seed(fp: u64, round: u64) -> u64 {
    spec_mix64(fp, round)
}

impl Tanistry {
    /// This round's rotation offset.
    pub open spec fn spec_round_rotation(self) -> int
        recommends
            self.spec_candidates().len() > 0,
    {
        (spec_round_seed(self.building_fingerprint, self.number_of_round) as int) % (
        self.spec_candidates().len() as int)
    }

    /// True when (rater, buddy) is one of this round's pairs: adjacent in
    /// the seeded rotation, with the rater on the even seat.  The pairing is
    /// a pure function of the ring's candidates, fingerprint and round, so
    /// every validator reaches the same pairs.
    pub open spec fn spec_is_round_pair(self, rater: u64, buddy: u64) -> bool {
        let cands = self.spec_candidates();
        let n = cands.len() as int;
        &&& n >= 2
        &&& {
            let rot = spec_rotated(cands, self.spec_round_rotation());
            exists|k: int|
                0 <= k && k % 2 == 0 && k + 1 < n && #[trigger] rot[k] == rater && rot[k + 1]
                    == buddy
        }
    }

    /// Builds this round's candidate order.
    pub fn round_candidate_order(&self) -> (r: Vec<u64>)
        requires
            self.candidate_limit_record_list@.len() > 0,
        ensures
            r@ == spec_rotated(self.spec_candidates(), self.spec_round_rotation()),
    {
        let n = self.candidate_limit_record_list.len();
        let seed = mix64(self.building_fingerprint, self.number_of_round);
        let offset: usize = (seed % (n as u64)) as usize;
        let ghost cands = self.spec_candidates();
        let mut rot: Vec<u64> = Vec::new();
        let mut i: usize = offset;
        while i < n
            invariant
                offset <= i <= n,
                n == cands.len(),
                n == self.candidate_limit_record_list@.len(),
                offset == self.spec_round_rotation(),
                rot@ =~= cands.subrange(offset as int, i as int),
                forall|j: int|
                    0 <= j < n ==> cands[j]
                        == self.candidate_limit_record_list@[j].candidate_token_owner,
            decreases n - i,
        {
            rot.push(self.candidate_limit_record_list[i].candidate_token_owner);
            assert(rot@ =~= cands.subrange(offset as int, i + 1 as int));
            i = i + 1;
        }
        let mut j: usize = 0;
        while j < offset
            invariant
                0 <= j <= offset <= n,
                n == cands.len(),
                n == self.candidate_limit_record_list@.len(),
                offset == self.spec_round_rotation(),
                rot@ =~= cands.subrange(offset as int, n as int) + cands.subrange(0, j as int),
                forall|jj: int|
                    0 <= jj < n ==> cands[jj]
                        == self.candidate_limit_record_list@[jj].candidate_token_owner,
            decreases offset - j,
        {
            rot.push(self.candidate_limit_record_list[j].candidate_token_owner);
            assert(rot@ =~= cands.subrange(offset as int, n as int) + cands.subrange(
                0,
                j + 1 as int,
            ));
            j = j + 1;
        }
        rot
    }

    /// Decides whether (rater, buddy) is one of this round's pairs.
    pub fn is_round_pair(&self, rater: u64, buddy: u64) -> (r: bool)
        ensures
            r == self.spec_is_round_pair(rater, buddy),
    {
        let n = self.candidate_limit_record_list.len();
        if n < 2 {
            return false;
        }
        let rot = self.round_candidate_order();
        assert(self.spec_candidates().len() == n);
        let mut idx: usize = 0;
        while idx + 1 < n
            invariant
                idx % 2 == 0,
                n == rot@.len(),
                2 <= n == self.spec_candidates().len(),
                rot@ == spec_rotated(self.spec_candidates(), self.spec_round_rotation()),
                forall|k: int|
                    0 <= k && k % 2 == 0 && k + 1 < n && k < idx ==> !(#[trigger] rot@[k]
                        == rater && rot@[k + 1] == buddy),
            decreases n - idx,
        {
            if rot[idx] == rater && rot[idx + 1] == buddy {
                assert(rot@[idx as int] == rater && rot@[idx as int + 1] == buddy);
                return true;
            }
            idx = idx + 2;
        }
        false
    }

    /// Total rating the identity received over the first `n` ratings.
    pub open spec fn spec_rated_total_prefix(self, who: u64, n: int) -> int
        decreases n,
    {
        if n <= 0 {
            0
        } else {
            self.spec_rated_total_prefix(who, n - 1) + {
                let r = self.rate_other_records@[n - 1];
                if r.mix_content_record < self.mix_content_records@.len()
                    && self.mix_content_records@[r.mix_content_record as int].buddy_candidate
                    == who {
                    r.rate_amount as int
                } else {
                    0
                }
            }
        }
    }

    /// Total rating the identity received over all ratings so far.
    pub open spec fn spec_rated_total(self, who: u64) -> int {
        self.spec_rated_total_prefix(who, self.rate_other_records@.len() as int)
    }

    /// A longer prefix never rates less.
    pub proof fn lemma_rated_total_prefix_le(self, who: u64, n: int, m: int)
        requires
            0 <= n <= m,
        ensures
            self.spec_rated_total_prefix(who, n) <= self.spec_rated_total_prefix(who, m),
        decreases m - n,
    {
        if n < m {
            self.lemma_rated_total_prefix_le(who, n, m - 1);
        }
    }

    /// Computes the total rating the identity received, or reports that it
    /// no longer fits the word size.
    pub fn rated_total(&self, who: u64) -> (r: Option<u64>)
        ensures
            match r {
                Some(v) => v == self.spec_rated_total(who),
                None => self.spec_rated_total(who) > u64::MAX,
            },
    {
        let n = self.rate_other_records.len();
        let mut acc: u64 = 0;
        let mut i: usize = 0;
        while i < n
            invariant
                0 <= i <= n,
                n == self.rate_other_records@.len(),
                acc == self.spec_rated_total_prefix(who, i as int),
            decreases n - i,
        {
            let rec = &self.rate_other_records[i];
            let mix_ref = rec.mix_content_record;
            let counts: bool = if mix_ref < self.mix_content_records.len() as u64 {
                self.mix_content_records[mix_ref as usize].buddy_candidate == who
            } else {
                false
            };
            if counts {
                match acc.checked_add(rec.rate_amount) {
                    Some(next) => {
                        acc = next;
                    },
                    None => {
                        proof {
                            self.lemma_rated_total_prefix_le(who, i + 1, n as int);
                        }
                        return None;
                    },
                }
            }
            i = i + 1;
        }
        Some(acc)
    }
}

impl Tanistry {
    /// Admission ledger shape: records carry their admission order as their
    /// sequence number, one record per candidate, and the custody holding
    /// balance is exactly the sum of the deposits, which never exceeds the
    /// limit bar.  A deposit is positive when admitted or bumped, but a
    /// full resale may drain it to zero.
    pub open spec fn wf_candidates(self) -> bool {
        let list = self.candidate_limit_record_list@;
        &&& forall|i: int|
            0 <= i < list.len() ==> (#[trigger] list[i]).wf() && list[i].number_of_candidate_count
                == i
        &&& forall|i: int, j: int|
            0 <= i < j < list.len() ==> (#[trigger] list[i]).candidate_token_owner != (
            #[trigger] list[j]).candidate_token_owner
        &&& spec_sum_deposits(list) == self.holding_balance
        &&& spec_sum_deposits(list) <= self.config.candidate_limit_bar
    }

    /// Mix engine shape: both parties of every mix are admitted candidates,
    /// no (rater, buddy, round) triple repeats, within one round no
    /// candidate sits in two unresolved pairs, and a record created in the
    /// current round is still unresolved — resolution always advances the
    /// round counter past it.
    pub open spec fn wf_mixes(self) -> bool {
        let mixes = self.mix_content_records@;
        &&& forall|i: int|
            0 <= i < mixes.len() ==> (#[trigger] mixes[i]).wf() && self.spec_is_candidate(
                mixes[i].rater_candidate,
            ) && self.spec_is_candidate(mixes[i].buddy_candidate)
        &&& forall|i: int|
            0 <= i < mixes.len() ==> (#[trigger] mixes[i]).round <= self.number_of_round
        &&& forall|i: int|
            0 <= i < mixes.len() && !(#[trigger] mixes[i]).spec_unresolved() ==> mixes[i].round
                < self.number_of_round
        &&& forall|i: int, j: int|
            0 <= i < j < mixes.len() ==> !((#[trigger] mixes[i]).rater_candidate == (
            #[trigger] mixes[j]).rater_candidate && mixes[i].buddy_candidate
                == mixes[j].buddy_candidate && mixes[i].round == mixes[j].round)
        &&& forall|i: int, j: int|
            0 <= i < j < mixes.len() && (#[trigger] mixes[i]).round == (
            #[trigger] mixes[j]).round && mixes[i].spec_unresolved()
                && mixes[j].spec_unresolved() ==> mixes[i].rater_candidate
                != mixes[j].rater_candidate && mixes[i].rater_candidate
                != mixes[j].buddy_candidate && mixes[i].buddy_candidate
                != mixes[j].rater_candidate && mixes[i].buddy_candidate
                != mixes[j].buddy_candidate
    }

    /// Rate engine shape: every rating resolves exactly one mix record, is
    /// bounded by the ceiling, and fixes the mix outcome by comparing the
    /// rating against the threshold; the round counter counts the ratings.
    pub open spec fn wf_rates(self) -> bool {
        let rates = self.rate_other_records@;
        let mixes = self.mix_content_records@;
        &&& forall|i: int|
            0 <= i < rates.len() ==> (#[trigger] rates[i]).wf() && rates[i].mix_content_record
                < mixes.len() && rates[i].rate_amount <= self.config.rating_ceiling
        &&& forall|i: int, j: int|
            0 <= i < j < rates.len() ==> (#[trigger] rates[i]).mix_content_record != (
            #[trigger] rates[j]).mix_content_record
        &&& forall|i: int|
            0 <= i < rates.len() ==> mixes[(#[trigger] rates[i]).mix_content_record as int].option_mix_result
                == (if rates[i].rate_amount >= self.config.rating_threshold {
                OptionMixResult::Succeeded
            } else {
                OptionMixResult::Defeated
            })
        &&& self.number_of_round == rates.len()
    }

    /// Fingerprint and seal shape: the running fingerprint is the fold of
    /// every rating over the initial fingerprint, with the crown folded in
    /// once the ring is sealed; a ring is sealed exactly when it has a
    /// crown, and the crown is an admitted candidate.
    pub open spec fn wf_fingerprint(self) -> bool {
        let folded = spec_fold_fingerprint(
            self.rate_other_records@,
            spec_initial_fingerprint(self.kicker_coin_holder, self.coordinator),
        );
        &&& match self.crown {
            None => self.building_fingerprint == folded,
            Some(crown) => self.building_fingerprint == spec_mix64(folded, crown),
        }
        &&& (self.crown is Some <==> self.is_sealed)
        &&& self.crown matches Some(crown) ==> self.spec_is_candidate(crown)
    }

    /// Secondary market shape: every listing is well formed, open listings
    /// are sold by admitted candidates whose recorded deposit covers the
    /// listed amount, and a seller has at most one open listing.
    pub open spec fn wf_listings(self) -> bool {
        let listings = self.outside_buyer_records@;
        let list = self.candidate_limit_record_list@;
        &&& forall|i: int| 0 <= i < listings.len() ==> (#[trigger] listings[i]).wf()
        &&& forall|i: int|
            0 <= i < listings.len() && (#[trigger] listings[i]).is_open
                ==> self.spec_is_candidate(listings[i].seller)
        &&& forall|i: int, j: int|
            0 <= i < listings.len() && 0 <= j < list.len() && (#[trigger] listings[i]).is_open
                && (#[trigger] list[j]).candidate_token_owner == listings[i].seller ==> list[j].candidate_token_deposit_amount
                >= listings[i].outside_buyer_token_deposit_amount
        &&& forall|i: int, j: int|
            0 <= i < j < listings.len() && (#[trigger] listings[i]).is_open && (
            #[trigger] listings[j]).is_open ==> listings[i].seller != listings[j].seller
    }

    /// Governance shape: every vote is cast by an admitted candidate and no
    /// voter appears twice.
    pub open spec fn wf_votes(self) -> bool {
        let votes = self.cc_vote_records@;
        &&& forall|i: int|
            0 <= i < votes.len() ==> (#[trigger] votes[i]).wf() && self.spec_is_candidate(
                votes[i].governing_token_owner,
            )
        &&& forall|i: int, j: int|
            0 <= i < j < votes.len() ==> (#[trigger] votes[i]).governing_token_owner != (
            #[trigger] votes[j]).governing_token_owner
    }

    /// Everything a ring keeps invariant, established at approval and
    /// preserved by every instruction.
    pub open spec fn wf(self) -> bool {
        &&& self.account_type == ShihonAccountType::Tanistry
        &&& self.kicker_coin_holder != self.coordinator
        &&& self.bc_token_name@.len() > 0
        &&& self.wf_candidates()
        &&& self.wf_mixes()
        &&& self.wf_rates()
        &&& self.wf_fingerprint()
        &&& self.wf_listings()
        &&& self.wf_votes()
    }
}

/// A prefix of the admission list never sums to more than the whole list.
pub proof fn lemma_sum_deposits_prefix_le(s: Seq<CandidateLimitRecord>, i: int)
    requires
        0 <= i <= s.len(),
    ensures
        spec_sum_deposits(s.subrange(0, i)) <= spec_sum_deposits(s),
    decreases s.len(),
{
    if i == s.len() {
        assert(s.subrange(0, i) =~= s);
    } else {
        assert(s.drop_last() =~= s.subrange(0, s.len() - 1));
        assert(s.subrange(0, i) =~= s.drop_last().subrange(0, i));
        lemma_sum_deposits_prefix_le(s.drop_last(), i);
    }
}

/// The value of a ring: the sum of all its members' deposits, which under
/// well-formedness equals the holding custody balance.
pub fn get_tanistry_value(tanistry: &Tanistry) -> (r: u64)
    requires
        tanistry.wf(),
    ensures
        r == spec_sum_deposits(tanistry.candidate_limit_record_list@),
        r == tanistry.holding_balance,
{
    let n = tanistry.candidate_limit_record_list.len();
    let mut acc: u64 = 0;
    let mut i: usize = 0;
    while i < n
        invariant
            0 <= i <= n,
            n == tanistry.candidate_limit_record_list@.len(),
            tanistry.wf(),
            acc == spec_sum_deposits(tanistry.candidate_limit_record_list@.subrange(0, i as int)),
        decreases n - i,
    {
        let ghost prefix = tanistry.candidate_limit_record_list@.subrange(0, i as int);
        let ghost next_prefix = tanistry.candidate_limit_record_list@.subrange(0, i + 1 as int);
        proof {
            assert(next_prefix.drop_last() =~= prefix);
            lemma_sum_deposits_prefix_le(tanistry.candidate_limit_record_list@, i + 1 as int);
            lemma_sum_deposits_nonneg(prefix);
        }
        acc = acc + tanistry.candidate_limit_record_list[i].candidate_token_deposit_amount;
        i = i + 1;
    }
    proof {
        assert(tanistry.candidate_limit_record_list@.subrange(0, n as int)
            =~= tanistry.candidate_limit_record_list@);
    }
    acc
}

/// The building value of a ring: its running fingerprint.
pub fn get_building_value(tanistry: &Tanistry) -> (r: u64)
    ensures
        r == tanistry.building_fingerprint,
{
    tanistry.building_fingerprint
}

/// The ring value: the holding custody balance together with the escrowed
/// KickerCoin, or nothing when the sum leaves the word size.
pub fn get_ring_value(tanistry: &Tanistry, escrowed_amount: u64) -> (r: Option<u64>)
    ensures
        match r {
            Some(v) => v == tanistry.holding_balance + escrowed_amount,
            None => tanistry.holding_balance + escrowed_amount > u64::MAX,
        },
{
    tanistry.holding_balance.checked_add(escrowed_amount)
}

/// Sum of the voter weights over the first `n` terminal votes.
pub open spec fn spec_sum_vote_weights(votes: Seq<CCVoteRecord>, n: int) -> int
    decreases n,
{
    if n <= 0 {
        0
    } else {
        spec_sum_vote_weights(votes, n - 1) + votes[n - 1].voter_weight
    }
}

/// A longer vote prefix never weighs less.
pub proof fn lemma_sum_vote_weights_le(votes: Seq<CCVoteRecord>, n: int, m: int)
    requires
        0 <= n <= m,
    ensures
        spec_sum_vote_weights(votes, n) <= spec_sum_vote_weights(votes, m),
    decreases m - n,
{
    if n < m {
        lemma_sum_vote_weights_le(votes, n, m - 1);
    }
}

/// The CC value of a ring: the total weight of the terminal votes cast so
/// far, or nothing when it leaves the word size.
pub fn get_cc_value(tanistry: &Tanistry) -> (r: Option<u64>)
    ensures
        match r {
            Some(v) => v == spec_sum_vote_weights(
                tanistry.cc_vote_records@,
                tanistry.cc_vote_records@.len() as int,
            ),
            None => spec_sum_vote_weights(
                tanistry.cc_vote_records@,
                tanistry.cc_vote_records@.len() as int,
            ) > u64::MAX,
        },
{
    let n = tanistry.cc_vote_records.len();
    let mut acc: u64 = 0;
    let mut i: usize = 0;
    while i < n
        invariant
            0 <= i <= n,
            n == tanistry.cc_vote_records@.len(),
            acc == spec_sum_vote_weights(tanistry.cc_vote_records@, i as int),
        decreases n - i,
    {
        match acc.checked_add(tanistry.cc_vote_records[i].voter_weight) {
            Some(next) => {
                acc = next;
            },
            None => {
                proof {
                    lemma_sum_vote_weights_le(tanistry.cc_vote_records@, i + 1, n as int);
                }
                return None;
            },
        }
        i = i + 1;
    }
    Some(acc)
}

impl Tanistry {
    /// In a well-formed ring a candidate holds one admission record only,
    /// so any index holding the candidate is the candidate index.
    pub proof fn lemma_candidate_index_unique(self, who: u64, i: int)
        requires
            self.wf_candidates(),
            0 <= i < self.candidate_limit_record_list@.len(),
            self.candidate_limit_record_list@[i].candidate_token_owner == who,
        ensures
            self.spec_candidate_index(who) == i,
            self.spec_is_candidate(who),
    {
        assert(self.spec_is_candidate(who));
    }

    /// True when the seller has an open resale listing in this ring.
    pub open spec fn spec_has_open_listing(self, seller: u64) -> bool {
        exists|i: int|
            0 <= i < self.outside_buyer_records@.len() && self.outside_buyer_records@[i].is_open
                && self.outside_buyer_records@[i].seller == seller
    }

    /// The index of the seller's open listing, where one exists.
    pub open spec fn spec_open_listing_index(self, seller: u64) -> int {
        choose|i: int|
            0 <= i < self.outside_buyer_records@.len() && self.outside_buyer_records@[i].is_open
                && self.outside_buyer_records@[i].seller == seller
    }

    /// In a well-formed ring a seller keeps one open listing only, so any
    /// index holding an open listing of the seller is the listing index.
    pub proof fn lemma_open_listing_unique(self, seller: u64, i: int)
        requires
            self.wf_listings(),
            0 <= i < self.outside_buyer_records@.len(),
            self.outside_buyer_records@[i].is_open,
            self.outside_buyer_records@[i].seller == seller,
        ensures
            self.spec_open_listing_index(seller) == i,
            self.spec_has_open_listing(seller),
    {
        assert(self.spec_has_open_listing(seller));
    }

    /// Finds the seller's open resale listing.
    pub fn find_open_listing(&self, seller: u64) -> (r: Option<usize>)
        ensures
            match r {
                Some(i) => i < self.outside_buyer_records@.len()
                    && self.outside_buyer_records@[i as int].is_open
                    && self.outside_buyer_records@[i as int].seller == seller,
                None => !self.spec_has_open_listing(seller),
            },
    {
        let n = self.outside_buyer_records.len();
        let mut i: usize = 0;
        while i < n
            invariant
                0 <= i <= n,
                n == self.outside_buyer_records@.len(),
                forall|j: int|
                    0 <= j < i ==> !(self.outside_buyer_records@[j].is_open
                        && self.outside_buyer_records@[j].seller == seller),
            decreases n - i,
        {
            let rec = &self.outside_buyer_records[i];
            if rec.is_open && rec.seller == seller {
                return Some(i);
            }
            i = i + 1;
        }
        None
    }
}

/// Checks the given account is a Tanistry account.
pub fn assert_is_valid_tanistry(tanistry: &Tanistry) -> (r: Result<(), ShihonError>)
    ensures
        r is Ok <==> tanistry.account_type == ShihonAccountType::Tanistry,
        r is Err ==> r == Err::<(), ShihonError>(ShihonError::InvalidTanistryState),
{
    if tanistry.account_type == ShihonAccountType::Tanistry {
        Ok(())
    } else {
        Err(ShihonError::InvalidTanistryState)
    }
}

/// A rotation of a duplicate-free list stays duplicate-free.
pub proof fn lemma_rotated_distinct(cands: Seq<u64>, r: int, i: int, j: int)
    requires
        0 <= r <= cands.len(),
        forall|a: int, b: int| 0 <= a < b < cands.len() ==> cands[a] != cands[b],
        0 <= i < j < cands.len(),
    ensures
        spec_rotated(cands, r)[i] != spec_rotated(cands, r)[j],
{
    let n = cands.len() as int;
    let rot = spec_rotated(cands, r);
    let oi = if i < n - r {
        r + i
    } else {
        i - (n - r)
    };
    let oj = if j < n - r {
        r + j
    } else {
        j - (n - r)
    };
    assert(rot[i] == cands[oi]);
    assert(rot[j] == cands[oj]);
    assert(oi != oj);
    if oi < oj {
        assert(cands[oi] != cands[oj]);
    } else {
        assert(cands[oj] != cands[oi]);
    }
}

impl Tanistry {
    /// Law: the deterministic pairing never pairs a candidate with itself.
    pub proof fn lemma_round_pair_no_self(self, rater: u64, buddy: u64)
        requires
            self.wf_candidates(),
            self.spec_is_round_pair(rater, buddy),
        ensures
            rater != buddy,
    {
        let cands = self.spec_candidates();
        let n = cands.len() as int;
        let r = self.spec_round_rotation();
        let rot = spec_rotated(cands, r);
        let k = choose|k: int|
            0 <= k && k % 2 == 0 && k + 1 < n && #[trigger] rot[k] == rater && rot[k + 1]
                == buddy;
        assert(forall|a: int, b: int|
            0 <= a < b < cands.len() ==> cands[a] != cands[b]) by {
            assert(forall|a: int|
                0 <= a < cands.len() ==> cands[a]
                    == self.candidate_limit_record_list@[a].candidate_token_owner);
        }
        lemma_rotated_distinct(cands, r, k, k + 1);
    }

    /// Law: within one round each candidate sits in at most one pair of the
    /// deterministic pairing — two pairs that share any member are the same
    /// pair.
    pub proof fn lemma_round_pairing_unique(self, r1: u64, b1: u64, r2: u64, b2: u64)
        requires
            self.wf_candidates(),
            self.spec_is_round_pair(r1, b1),
            self.spec_is_round_pair(r2, b2),
            r1 == r2 || r1 == b2 || b1 == r2 || b1 == b2,
        ensures
            r1 == r2 && b1 == b2,
    {
        let cands = self.spec_candidates();
        let n = cands.len() as int;
        let rot_off = self.spec_round_rotation();
        let rot = spec_rotated(cands, rot_off);
        let k1 = choose|k: int|
            0 <= k && k % 2 == 0 && k + 1 < n && #[trigger] rot[k] == r1 && rot[k + 1] == b1;
        let k2 = choose|k: int|
            0 <= k && k % 2 == 0 && k + 1 < n && #[trigger] rot[k] == r2 && rot[k + 1] == b2;
        assert(forall|a: int, b: int|
            0 <= a < b < cands.len() ==> cands[a] != cands[b]) by {
            assert(forall|a: int|
                0 <= a < cands.len() ==> cands[a]
                    == self.candidate_limit_record_list@[a].candidate_token_owner);
        }
        assert forall|a: int, b: int| 0 <= a < b < n implies rot[a] != rot[b] by {
            lemma_rotated_distinct(cands, rot_off, a, b);
        }
        if k1 != k2 {
            assert(rot[k1] != rot[k2]);
            assert(rot[k1] != rot[k2 + 1] || k1 == k2 + 1);
            assert(rot[k1 + 1] != rot[k2] || k1 + 1 == k2);
            assert(rot[k1 + 1] != rot[k2 + 1]);
            assert(k1 != k2 + 1 && k1 + 1 != k2);
            assert(false);
        }
    }
}

} // verus!
