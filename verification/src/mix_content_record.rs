//! Mix engine: the pairwise `MixContentRecord`.

use crate::enums::ShihonAccountType;
use crate::error::ShihonError;
use vstd::prelude::*;

verus! {

/// Mix content result state: unresolved until the rater scores it, then
/// fixed forever.
#[derive(Clone, Copy, Debug, PartialEq, Eq, Structural)]
pub enum OptionMixResult {
    /// The mix is not resolved yet.
    Unresolved,
    /// The mix is completed and the option passed.
    Succeeded,
    /// The mix was defeated.
    Defeated,
}

/// One pairwise content combination: the rater and the buddy candidate
/// jointly signed the shared content link; the record resolves exactly once
/// when the rater scores it.
#[derive(Debug)]
pub struct MixContentRecord {
    /// Account type discriminator.
    pub account_type: ShihonAccountType,
    /// Encrypted link of the mixed content.
    pub encrypted_link: String,
    /// Rater candidate.
    pub rater_candidate: u64,
    /// Buddy candidate; never the rater itself.
    pub buddy_candidate: u64,
    /// Mix content result state before and after the rating action.
    pub option_mix_result: OptionMixResult,
    /// The round the pair was formed in.
    pub round: u64,
    /// Fingerprint of the ring at the moment the pair was formed.
    pub finger_print_of_mixed_content: u64,
}

impl MixContentRecord {
    /// Shape every mix record keeps: its own discriminator and two distinct
    /// candidates.
    pub open spec fn wf(self) -> bool {
        &&& self.account_type == ShihonAccountType::MixContentRecord
        &&& self.rater_candidate != self.buddy_candidate
    }

    /// A mix record is initialized once it carries its own discriminator.
    pub fn is_initialized(&self) -> (r: bool)
        ensures
            r == (self.account_type == ShihonAccountType::MixContentRecord),
    {
        self.account_type == ShihonAccountType::MixContentRecord
    }

    /// True while the record still awaits its single rating.
    pub open spec fn spec_unresolved(self) -> bool {
        self.option_mix_result == OptionMixResult::Unresolved
    }

    /// Checks the record still awaits its rating: a resolved mix can never
    /// be rated again.
    pub fn assert_can_rate(&self) -> (r: Result<(), ShihonError>)
        ensures
            r is Ok <==> self.spec_unresolved(),
            r is Err ==> r == Err::<(), ShihonError>(ShihonError::MixContentAlreadyResolved),
    {
        match self.option_mix_result {
            OptionMixResult::Unresolved => Ok(()),
            _ => Err(ShihonError::MixContentAlreadyResolved),
        }
    }
}

/// Rating vote type.
#[derive(Clone, Copy, Debug, PartialEq, Eq, Structural)]
pub enum RateType {
    /// Single choice with mutually exclusive options; there can only ever be
    /// a single winner.
    SingleChoice,
    /// Multiple options selected with up to the given number of choices per
    /// rater; the count must match the option list.
    MultiChoice(u16),
}

/// True when the option list does not fit the rate type: an empty list, an
/// empty label, or a multi-choice count that disagrees with the list.
pub open spec fn spec_invalid_rate_options(options: Seq<Seq<char>>, rate_type: RateType) -> bool {
    ||| options.len() == 0
    ||| (rate_type matches RateType::MultiChoice(n) && (options.len() == 1 || n as int
        != options.len()))
    ||| exists|i: int| 0 <= i < options.len() && options[i].len() == 0
}

/// Checks the options to create a rate are valid for the rate type.
pub fn assert_valid_rate_options(options: &Vec<String>, rate_type: &RateType) -> (r: Result<
    (),
    ShihonError,
>)
    ensures
        r is Ok <==> !spec_invalid_rate_options(options.deep_view(), *rate_type),
        r is Err ==> r == Err::<(), ShihonError>(ShihonError::InvalidProposalOptions),
{
    if options.len() == 0 {
        return Err(ShihonError::InvalidProposalOptions);
    }
    if let RateType::MultiChoice(n) = *rate_type {
        if options.len() == 1 || n as usize != options.len() {
            return Err(ShihonError::InvalidProposalOptions);
        }
    }
    let mut i: usize = 0;
    while i < options.len()
        invariant
            0 <= i <= options.len(),
            forall|j: int| 0 <= j < i ==> options@[j]@.len() != 0,
        decreases options.len() - i,
    {
        if options[i].as_str().is_empty() {
            assert(options.deep_view()[i as int].len() == 0);
            return Err(ShihonError::InvalidProposalOptions);
        }
        i = i + 1;
    }
    assert(forall|j: int|
        0 <= j < options.len() ==> options.deep_view()[j] == options@[j]@);
    Ok(())
}

} // verus!
