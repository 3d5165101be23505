//! The reasons for which a call is turned down.

use vstd::prelude::*;

verus! {

/// Why a call on a proposal was refused or broke off.
#[derive(Clone, Copy, Debug, PartialEq, Eq, Structural)]
pub enum ProposalErrorCode {
    /// The description is empty.
    DescriptionRequired,
    /// The description has more than
    /// [`MAX_DESCRIPTION_LEN`](crate::state::proposal::MAX_DESCRIPTION_LEN)
    /// characters.
    DescriptionTooLong,
    /// No proposal is stored under the given id. For the store to report:
    /// the functions of this crate are handed the proposal itself.
    InvalidProposalId,
    /// The proposal is closed, or its rewards are already being paid out
    /// and a new voter asks to vote.
    ProposalFinalized,
    /// The voter's record says that the vote was already cast.
    AlreadyVoted,
    /// Someone other than the creator tried to close the proposal.
    OnlyCreatorCanFinalize,
    /// The balance handed in for a participant is missing or belongs to
    /// another key.
    InvalidVoterAccount,
    /// Nobody voted on the proposal. For callers that insist on voters:
    /// this crate closes such a proposal without a payout.
    NoVoters,
    /// The reward pool could not be divided by the number of voters. The
    /// pool is only divided where somebody voted, so closing a proposal
    /// does not fail with this.
    RewardDivisionError,
    /// A sum does not fit: a counter or a receiving balance would exceed
    /// `u64::MAX`, or the proposal's balance would fall below zero while
    /// rewards are paid out of it.
    Overflow,
    /// The paying balance is smaller than the amount to move: the creator
    /// cannot pay the reward of a new proposal.
    InsufficientFunds,
    /// A proposal is already stored under the key of the new one.
    AlreadyExists,
    /// The proposal already holds
    /// [`MAX_VOTERS`](crate::state::proposal::MAX_VOTERS) voters.
    VoterLimitReached,
}

} // verus!
