//! Vote-option plumbing shared with the rating engine: option lists and the
//! threshold-weight conversion.

use crate::error::ShihonError;
use vstd::prelude::*;

verus! {

/// Vote result of one proposal option.
#[derive(Clone, Copy, Debug, PartialEq, Eq, Structural)]
pub enum OptionVoteResult {
    /// The vote on the option is not resolved yet.
    Unresolved,
    /// The vote completed and the option passed.
    Succeeded,
    /// The vote completed and the option was defeated.
    Defeated,
}

/// One labelled option of a proposal.
#[derive(Debug)]
pub struct ProposalOption {
    /// Option label.
    pub label: String,
    /// Vote weight for the option.
    pub vote_weight: u64,
    /// Vote result for the option.
    pub vote_result: OptionVoteResult,
    /// The number of the instructions already executed.
    pub instructions_executed_count: u16,
    /// The number of instructions included in the option.
    pub instructions_count: u16,
    /// The index of the next instruction to be added.
    pub instructions_next_index: u16,
}

/// Proposal vote type.
#[derive(Clone, Copy, Debug, PartialEq, Eq, Structural)]
pub enum VoteType {
    /// Single choice vote with mutually exclusive choices.
    SingleChoice,
    /// Multiple options selected with up to the given number of choices per
    /// voter; the count must match the option list.
    MultiChoice(u16),
}

/// True when the option list does not fit the vote type: an empty list, an
/// empty label, or a multi-choice count that disagrees with the list.
pub open spec fn spec_invalid_proposal_options(
    options: Seq<Seq<char>>,
    vote_type: VoteType,
) -> bool {
    ||| options.len() == 0
    ||| (vote_type matches VoteType::MultiChoice(n) && (options.len() == 1 || n as int
        != options.len()))
    ||| exists|i: int| 0 <= i < options.len() && options[i].len() == 0
}

/// Checks the options to create a proposal are valid for the vote type.
pub fn assert_valid_proposal_options(options: &Vec<String>, vote_type: &VoteType) -> (r: Result<
    (),
    ShihonError,
>)
    ensures
        r is Ok <==> !spec_invalid_proposal_options(options.deep_view(), *vote_type),
        r is Err ==> r == Err::<(), ShihonError>(ShihonError::InvalidProposalOptions),
{
    if options.len() == 0 {
        return Err(ShihonError::InvalidProposalOptions);
    }
    if let VoteType::MultiChoice(n) = *vote_type {
        if options.len() == 1 || n as usize != options.len() {
            return Err(ShihonError::InvalidProposalOptions);
        }
    }
    let mut i: usize = 0;
    while i < options.len()
        invariant
            0 <= i <= options.len(),
            forall|j: int| 0 <= j < i ==> options@[j]@.len() != 0,
        decreases options.len() - i,
    {
        if options[i].as_str().is_empty() {
            assert(options.deep_view()[i as int].len() == 0);
            return Err(ShihonError::InvalidProposalOptions);
        }
        i = i + 1;
    }
    assert(forall|j: int| 0 <= j < options.len() ==> options.deep_view()[j] == options@[j]@);
    Ok(())
}

/// The vote threshold in percentages used to resolve a vote.
#[derive(Clone, Copy, Debug, PartialEq, Eq, Structural)]
pub enum VoteThresholdPercentage {
    /// Percentage of yes votes required.
    YesVote(u8),
    /// Quorum percentage; not supported by this protocol.
    Quorum(u8),
}

/// Converts a threshold percentage to the minimum vote weight an option
/// needs to pass: the ceiling of `percentage` per cent of the max weight,
/// computed in double-width arithmetic and reduced to the word size — a
/// percentage above one hundred can overflow the word, and the reduced
/// value is what goes on the wire.
pub fn get_min_vote_threshold_weight(
    vote_threshold_percentage: &VoteThresholdPercentage,
    max_vote_weight: u64,
) -> (r: Result<u64, ShihonError>)
    ensures
        match r {
            Ok(w) => vote_threshold_percentage matches VoteThresholdPercentage::YesVote(p)
                && w == ((p * max_vote_weight + 99) / 100) % 0x10000000000000000,
            Err(e) => vote_threshold_percentage !is YesVote && e
                == ShihonError::VoteThresholdPercentageTypeNotSupported,
        },
{
    let yes_vote_threshold_percentage: u8 = match vote_threshold_percentage {
        VoteThresholdPercentage::YesVote(p) => *p,
        _ => {
            return Err(ShihonError::VoteThresholdPercentageTypeNotSupported);
        },
    };
    proof {
        assert((yes_vote_threshold_percentage as int) * (max_vote_weight as int) <= 255 * (
        u64::MAX as int)) by (nonlinear_arith)
            requires
                yes_vote_threshold_percentage <= 255,
                max_vote_weight <= u64::MAX,
        {
        }
    }
    let numerator: u128 = (yes_vote_threshold_percentage as u128) * (max_vote_weight as u128);
    let mut yes_vote_threshold: u128 = numerator / 100;
    if yes_vote_threshold * 100 < numerator {
        yes_vote_threshold = yes_vote_threshold + 1;
    }
    proof {
        let p = yes_vote_threshold_percentage as int;
        let m = max_vote_weight as int;
        assert(yes_vote_threshold == (p * m + 99) / 100) by (nonlinear_arith)
            requires
                0 <= p <= 255,
                0 <= m < 0x10000000000000000,
                numerator == p * m,
                yes_vote_threshold == if (p * m / 100) * 100 < p * m {
                    p * m / 100 + 1
                } else {
                    p * m / 100
                },
        {
        }
    }
    Ok((yes_vote_threshold % 0x10000000000000000u128) as u64)
}

} // verus!
