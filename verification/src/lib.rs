//! Lifecycle of one governance proposal: it is created open, collects one
//! vote per participant, and is closed once by its creator, who thereby has
//! the reward pool divided evenly among the participants.
//!
//! The functions here work on plain values. Loading and storing accounts,
//! signatures and the ledger itself belong to the caller; what this crate
//! fixes is which calls are accepted, what they change, and how the pool is
//! paid out.

pub mod errors;
pub mod identity;
pub mod instructions;
pub mod ledger;
pub mod state;

use crate::errors::ProposalErrorCode;
use crate::instructions::{
    create_proposal_instruction, finalize_proposal_instruction, vote_proposal_instruction,
    CreateProposal, Finalize, Vote,
};
use crate::state::proposal::ProposalResult;
use anchor_lang::prelude::Pubkey;
use vstd::prelude::*;

verus! {

/// Creates a proposal and funds its reward pool. See
/// [`create_proposal_instruction`], which does the work.
pub fn create_proposal(ctx: &mut CreateProposal, description: String, initial_reward: u64) -> (created:
    Result<Pubkey, ProposalErrorCode>)
    ensures
        match created {
            Ok(key) => old(ctx)@.create_error(description@, initial_reward as nat) is None && key
                == old(ctx).proposal_key,
            Err(error) => old(ctx)@.create_error(description@, initial_reward as nat) == Some(
                error,
            ),
        },
        final(ctx)@ == old(ctx)@.created(description@, initial_reward as nat),
        created is Err ==> *final(ctx) == *old(ctx),
{
    create_proposal_instruction(ctx, description, initial_reward)
}

/// Closes a proposal and pays out its reward pool. See
/// [`finalize_proposal_instruction`], which does the work.
pub fn finalize_proposal(ctx: &mut Finalize) -> (outcome: Result<ProposalResult, ProposalErrorCode>)
    ensures
        match outcome {
            Ok(result) => old(ctx)@.finalize_error() is None && result == old(ctx)@.proposal.outcome(),
            Err(error) => old(ctx)@.finalize_error() == Some(error),
        },
        final(ctx)@ == old(ctx)@.finalized(),
        !old(ctx).proposal.on_going || old(ctx).creator != old(ctx).proposal.creator ==> *final(ctx)
            == *old(ctx),
{
    finalize_proposal_instruction(ctx)
}

/// Casts a vote. See [`vote_proposal_instruction`], which does the work.
pub fn vote_proposal(ctx: &mut Vote, vote: bool) -> (cast: Result<(), ProposalErrorCode>)
    ensures
        match cast {
            Ok(()) => old(ctx)@.vote_error(vote) is None,
            Err(error) => old(ctx)@.vote_error(vote) == Some(error),
        },
        final(ctx)@ == old(ctx)@.voted(vote),
        cast is Err ==> *final(ctx) == *old(ctx),
{
    vote_proposal_instruction(ctx, vote)
}

} // verus!
