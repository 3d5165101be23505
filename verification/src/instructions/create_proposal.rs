//! Creating a proposal and funding its reward pool.

use crate::errors::ProposalErrorCode;
use crate::ledger::{transfer, Wallet};
use crate::state::proposal::{Proposal, ProposalView, MAX_DESCRIPTION_LEN};
use anchor_lang::prelude::Pubkey;
use vstd::prelude::*;
use vstd::string::StrSliceExecFns;

verus! {

/// What creating a proposal works on.
pub struct CreateProposal {
    /// The key under which the new proposal is to be stored.
    pub proposal_key: Pubkey,
    /// What the store holds under that key: nothing, or a proposal created
    /// earlier.
    pub proposal: Option<Proposal>,
    /// The balance of the proposal's own account, which takes the reward.
    pub proposal_lamports: u64,
    /// Who creates the proposal, with the balance that pays the reward.
    pub user: Wallet,
}

/// [`CreateProposal`] as contracts speak of it.
#[verifier::ext_equal]
pub struct CreateProposalView {
    pub proposal_key: Pubkey,
    pub proposal: Option<ProposalView>,
    pub proposal_lamports: nat,
    pub user: Wallet,
}

impl View for CreateProposal {
    type V = CreateProposalView;

    open spec fn view(&self) -> CreateProposalView {
        CreateProposalView {
            proposal_key: self.proposal_key,
            proposal: match self.proposal {
                Some(proposal) => Some(proposal@),
                None => None,
            },
            proposal_lamports: self.proposal_lamports as nat,
            user: self.user,
        }
    }
}

impl CreateProposalView {
    /// Why the proposal cannot be created, if it cannot. Of the two sides
    /// of the reward's transfer the creator's comes first: a reward that
    /// the creator cannot pay is `InsufficientFunds`, whatever the
    /// proposal's balance could take.
    pub open spec fn create_error(self, description: Seq<char>, reward_pool: nat) -> Option<
        ProposalErrorCode,
    > {
        if description.len() == 0 {
            Some(ProposalErrorCode::DescriptionRequired)
        } else if description.len() > MAX_DESCRIPTION_LEN {
            Some(ProposalErrorCode::DescriptionTooLong)
        } else if self.proposal is Some {
            Some(ProposalErrorCode::AlreadyExists)
        } else if self.user.lamports < reward_pool {
            Some(ProposalErrorCode::InsufficientFunds)
        } else if self.proposal_lamports + reward_pool > u64::MAX {
            Some(ProposalErrorCode::Overflow)
        } else {
            None
        }
    }

    /// The state that an attempt to create a proposal leaves behind:
    /// unchanged where it is refused; else the new proposal is in place and
    /// the reward has moved from the creator's balance to the proposal's.
    pub open spec fn created(self, description: Seq<char>, reward_pool: nat) -> CreateProposalView {
        if self.create_error(description, reward_pool) is Some {
            self
        } else {
            CreateProposalView {
                proposal: Some(ProposalView::fresh(self.user.key, description, reward_pool)),
                proposal_lamports: self.proposal_lamports + reward_pool,
                user: Wallet {
                    key: self.user.key,
                    lamports: (self.user.lamports - reward_pool) as u64,
                },
                ..self
            }
        }
    }
}

impl CreateProposalView {
    /// A proposal that was created is open, well formed and without votes,
    /// belongs to the caller, and holds the reward, which has left the
    /// creator's balance for the proposal's: the two balances together hold
    /// what they held before.
    pub proof fn a_created_proposal_is_well_formed(self, description: Seq<char>, reward_pool: nat)
        requires
            self.create_error(description, reward_pool) is None,
        ensures
            ({
                let after = self.created(description, reward_pool);
                &&& after.proposal == Some(
                    ProposalView::fresh(self.user.key, description, reward_pool),
                )
                &&& after.proposal->0.wf()
                &&& after.proposal->0.on_going
                &&& after.proposal_lamports == self.proposal_lamports + reward_pool
                &&& after.user.lamports == self.user.lamports - reward_pool
                &&& after.user.key == self.user.key
                &&& after.proposal_key == self.proposal_key
            }),
    {
    }

    /// A reward that the creator cannot pay is refused as such. Where the
    /// description is in order and no proposal is stored under the key, a
    /// reward above the creator's balance is answered with
    /// `InsufficientFunds`, and nothing changes: no proposal is stored and
    /// no balance moves.
    pub proof fn a_reward_must_be_covered(self, description: Seq<char>, reward_pool: nat)
        requires
            ProposalView::description_fits(description),
            self.proposal is None,
            reward_pool > self.user.lamports,
        ensures
            self.create_error(description, reward_pool) == Some(
                ProposalErrorCode::InsufficientFunds,
            ),
            self.created(description, reward_pool) == self,
    {
    }

    /// A proposal that exists is never overwritten: whatever is asked for
    /// under its key is refused and changes nothing.
    pub proof fn an_existing_proposal_is_kept(self, description: Seq<char>, reward_pool: nat)
        requires
            self.proposal is Some,
        ensures
            self.create_error(description, reward_pool) is Some,
            self.created(description, reward_pool) == self,
    {
    }
}

/// Creates a proposal of `ctx.user` under `ctx.proposal_key` and moves
/// `reward_pool` from the creator's balance into the proposal's.
///
/// The call is refused, and nothing changes,
/// - with `DescriptionRequired` if the description is empty;
/// - else with `DescriptionTooLong` if it has more than
///   `MAX_DESCRIPTION_LEN` characters;
/// - else with `AlreadyExists` if a proposal is stored under the key: a
///   proposal is never overwritten;
/// - else with `InsufficientFunds` if the creator's balance does not hold
///   the reward;
/// - else with `Overflow` if the proposal's balance cannot take it.
///
/// Otherwise the new proposal is open, has no votes and no outcome, and its
/// pool is `reward_pool`. The key of the proposal is returned.
pub fn create_proposal_instruction(
    ctx: &mut CreateProposal,
    description: String,
    reward_pool: u64,
) -> (created: Result<Pubkey, ProposalErrorCode>)
    ensures
        match created {
            Ok(key) => old(ctx)@.create_error(description@, reward_pool as nat) is None && key
                == old(ctx).proposal_key,
            Err(error) => old(ctx)@.create_error(description@, reward_pool as nat) == Some(error),
        },
        final(ctx)@ == old(ctx)@.created(description@, reward_pool as nat),
        created is Err ==> *final(ctx) == *old(ctx),
{
    if description.as_str().is_empty() {
        return Err(ProposalErrorCode::DescriptionRequired);
    }
    if description.as_str().unicode_len() > MAX_DESCRIPTION_LEN {
        return Err(ProposalErrorCode::DescriptionTooLong);
    }
    if ctx.proposal.is_some() {
        return Err(ProposalErrorCode::AlreadyExists);
    }
    if reward_pool > 0 {
        if ctx.user.lamports < reward_pool {
            return Err(ProposalErrorCode::InsufficientFunds);
        }
        match transfer(&mut ctx.user.lamports, &mut ctx.proposal_lamports, reward_pool) {
            Ok(()) => {},
            Err(error) => {
                return Err(error);
            },
        }
    }
    ctx.proposal = Some(Proposal::new(ctx.user.key, description, reward_pool));
    Ok(ctx.proposal_key)
}

} // verus!
