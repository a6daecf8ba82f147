//! The whole protocol state: registry, escrow ledger and rings, as one
//! in-memory value with a global well-formedness invariant.

use crate::bc_token::BcToken;
use crate::kicker_coin_owner_record::KickerCoinOwnerRecord;
use crate::tanistry::Tanistry;
use crate::tanistry::spec_sum_deposits;
use vstd::prelude::*;

verus! {

/// Arena of every record the protocol owns.  Content tokens are keyed by
/// name, escrow records by their (kicker, coordinator) pair and rings by
/// their index; records inside a ring live on the ring itself.
#[derive(Debug)]
pub struct Ledger {
    /// The content token registry.
    pub bc_tokens: Vec<BcToken>,
    /// The escrow ledger: pending and accepted records, in creation order.
    /// A denied record is removed with its escrow refunded.
    pub kicker_coin_owner_records: Vec<KickerCoinOwnerRecord>,
    /// Every ring ever opened; a ring's index is its identity.
    pub tanistries: Vec<Tanistry>,
}

impl Ledger {
    /// Ledger-wide shape: every record well formed, token names unique,
    /// at most one live escrow record per ordered pair, every ring well
    /// formed with its admission records pointing back at it, and ring
    /// links staying inside the arena.
    pub open spec fn wf(self) -> bool {
        let tokens = self.bc_tokens@;
        let escrows = self.kicker_coin_owner_records@;
        let rings = self.tanistries@;
        &&& forall|i: int| 0 <= i < tokens.len() ==> (#[trigger] tokens[i]).wf()
        &&& forall|i: int, j: int|
            0 <= i < j < tokens.len() ==> (#[trigger] tokens[i]).name@ != (
            #[trigger] tokens[j]).name@
        &&& forall|i: int| 0 <= i < escrows.len() ==> (#[trigger] escrows[i]).wf()
        &&& forall|i: int, j: int|
            0 <= i < j < escrows.len() ==> !((#[trigger] escrows[i]).kicker_coin_holder == (
            #[trigger] escrows[j]).kicker_coin_holder && escrows[i].coordinator
                == escrows[j].coordinator)
        &&& forall|t: int| 0 <= t < rings.len() ==> (#[trigger] rings[t]).wf()
        &&& forall|t: int, i: int|
            0 <= t < rings.len() && 0 <= i < rings[t].candidate_limit_record_list@.len()
                ==> (#[trigger] rings[t].candidate_limit_record_list@[i]).belonging_tanistry
                == t
        &&& forall|t: int|
            0 <= t < rings.len() ==> ((#[trigger] rings[t]).next_tanistry_id matches Some(x)
                ==> (x as int) < rings.len())
        &&& forall|t: int|
            0 <= t < rings.len() ==> ((#[trigger] rings[t]).previous_tanistry_id matches Some(
            x) ==> (x as int) < rings.len())
    }

    /// True when a token of this name exists.
    pub open spec fn spec_has_token(self, name: Seq<char>) -> bool {
        exists|i: int| 0 <= i < self.bc_tokens@.len() && self.bc_tokens@[i].name@ == name
    }

    /// The registry index of a token name, where one exists.
    pub open spec fn spec_token_index(self, name: Seq<char>) -> int {
        choose|i: int| 0 <= i < self.bc_tokens@.len() && self.bc_tokens@[i].name@ == name
    }

    /// Finds the token of the given name.
    pub fn find_bc_token(&self, name: &String) -> (r: Option<usize>)
        ensures
            match r {
                Some(i) => i < self.bc_tokens@.len() && self.bc_tokens@[i as int].name@ == name@,
                None => !self.spec_has_token(name@),
            },
    {
        let n = self.bc_tokens.len();
        let mut i: usize = 0;
        while i < n
            invariant
                0 <= i <= n,
                n == self.bc_tokens@.len(),
                forall|j: int| 0 <= j < i ==> self.bc_tokens@[j].name@ != name@,
            decreases n - i,
        {
            if self.bc_tokens[i].name == *name {
                return Some(i);
            }
            i = i + 1;
        }
        None
    }

    /// True when a live escrow record for the ordered pair exists.
    pub open spec fn spec_has_escrow(self, kicker: u64, coordinator: u64) -> bool {
        exists|i: int|
            0 <= i < self.kicker_coin_owner_records@.len()
                && self.kicker_coin_owner_records@[i].kicker_coin_holder == kicker
                && self.kicker_coin_owner_records@[i].coordinator == coordinator
    }

    /// The escrow ledger index of the ordered pair, where one exists.
    pub open spec fn spec_escrow_index(self, kicker: u64, coordinator: u64) -> int {
        choose|i: int|
            0 <= i < self.kicker_coin_owner_records@.len()
                && self.kicker_coin_owner_records@[i].kicker_coin_holder == kicker
                && self.kicker_coin_owner_records@[i].coordinator == coordinator
    }

    /// In a well-formed ledger the token of a name sits at one index only,
    /// so any index holding the name is the token index.
    pub proof fn lemma_token_index_unique(self, name: Seq<char>, i: int)
        requires
            self.wf(),
            0 <= i < self.bc_tokens@.len(),
            self.bc_tokens@[i].name@ == name,
        ensures
            self.spec_token_index(name) == i,
    {
        assert(self.spec_has_token(name));
    }

    /// In a well-formed ledger the escrow record of a pair sits at one
    /// index only, so any index holding the pair is the escrow index.
    pub proof fn lemma_escrow_index_unique(self, kicker: u64, coordinator: u64, i: int)
        requires
            self.wf(),
            0 <= i < self.kicker_coin_owner_records@.len(),
            self.kicker_coin_owner_records@[i].kicker_coin_holder == kicker,
            self.kicker_coin_owner_records@[i].coordinator == coordinator,
        ensures
            self.spec_escrow_index(kicker, coordinator) == i,
    {
        assert(self.spec_has_escrow(kicker, coordinator));
    }

    /// Finds the live escrow record of the ordered pair.
    pub fn find_kicker_coin_owner_record(&self, kicker: u64, coordinator: u64) -> (r: Option<
        usize,
    >)
        ensures
            match r {
                Some(i) => i < self.kicker_coin_owner_records@.len()
                    && self.kicker_coin_owner_records@[i as int].kicker_coin_holder == kicker
                    && self.kicker_coin_owner_records@[i as int].coordinator == coordinator,
                None => !self.spec_has_escrow(kicker, coordinator),
            },
    {
        let n = self.kicker_coin_owner_records.len();
        let mut i: usize = 0;
        while i < n
            invariant
                0 <= i <= n,
                n == self.kicker_coin_owner_records@.len(),
                forall|j: int|
                    0 <= j < i ==> !(self.kicker_coin_owner_records@[j].kicker_coin_holder
                        == kicker && self.kicker_coin_owner_records@[j].coordinator
                        == coordinator),
            decreases n - i,
        {
            let rec = &self.kicker_coin_owner_records[i];
            if rec.kicker_coin_holder == kicker && rec.coordinator == coordinator {
                return Some(i);
            }
            i = i + 1;
        }
        None
    }
}

/// Opens an empty ledger.
pub fn new_ledger() -> (r: Ledger)
    ensures
        r.wf(),
        r.bc_tokens@.len() == 0,
        r.kicker_coin_owner_records@.len() == 0,
        r.tanistries@.len() == 0,
{
    Ledger { bc_tokens: Vec::new(), kicker_coin_owner_records: Vec::new(), tanistries: Vec::new() }
}

/// Law: in a well-formed ledger the sum of the admitted candidates' deposits
/// equals the ring's custody holding balance — and since every instruction
/// preserves well-formedness, this holds after every instruction.
pub proof fn lemma_holding_matches_deposits(l: Ledger, t: int)
    requires
        l.wf(),
        0 <= t < l.tanistries@.len(),
    ensures
        spec_sum_deposits(l.tanistries@[t].candidate_limit_record_list@) == l.tanistries@[t].holding_balance,
{
}

/// Law: no admission sequence index repeats within one ring — each record
/// carries its admission position, so two distinct records always carry
/// distinct numbers.
pub proof fn lemma_candidate_sequences_distinct(l: Ledger, t: int, i: int, j: int)
    requires
        l.wf(),
        0 <= t < l.tanistries@.len(),
        0 <= i < l.tanistries@[t].candidate_limit_record_list@.len(),
        0 <= j < l.tanistries@[t].candidate_limit_record_list@.len(),
        i != j,
    ensures
        l.tanistries@[t].candidate_limit_record_list@[i].number_of_candidate_count
            != l.tanistries@[t].candidate_limit_record_list@[j].number_of_candidate_count,
{
    assert(l.tanistries@[t].wf());
}

} // verus!
