//! Casting a vote: once per voter, and only while the proposal is open.

use crate::errors::ProposalErrorCode;
use crate::state::proposal::{Proposal, ProposalView, MAX_VOTERS};
use anchor_lang::prelude::Pubkey;
use vstd::prelude::*;

verus! {

/// The record kept of one voter on one proposal. The store holds one under
/// each pair of proposal and voter, and hands a record that has not voted
/// where it holds none.
#[derive(Clone, Copy, Debug)]
pub struct VoterAccount {
    /// The voter.
    pub voter: Pubkey,
    /// The key of the proposal that the vote is on.
    pub proposal: Pubkey,
    /// Whether the vote has been cast.
    pub has_voted: bool,
    /// The vote: `true` in favour, `false` against.
    pub vote: bool,
}

/// What casting a vote works on.
pub struct Vote {
    /// The key under which the proposal is stored.
    pub proposal_key: Pubkey,
    /// The proposal voted on.
    pub proposal: Proposal,
    /// The record of this voter on this proposal.
    pub voter_account: VoterAccount,
    /// The voter.
    pub user: Pubkey,
}

/// [`Vote`] as contracts speak of it.
#[verifier::ext_equal]
pub struct VoteView {
    pub proposal_key: Pubkey,
    pub proposal: ProposalView,
    pub voter_account: VoterAccount,
    pub user: Pubkey,
}

impl View for Vote {
    type V = VoteView;

    open spec fn view(&self) -> VoteView {
        VoteView {
            proposal_key: self.proposal_key,
            proposal: self.proposal@,
            voter_account: self.voter_account,
            user: self.user,
        }
    }
}

impl VoteView {
    /// Why the vote cannot be cast, if it cannot. A closed proposal comes
    /// first, then a voter who has voted; only a voter who has not is told
    /// that the payout has begun.
    pub open spec fn vote_error(self, vote: bool) -> Option<ProposalErrorCode> {
        if !self.proposal.on_going {
            Some(ProposalErrorCode::ProposalFinalized)
        } else if self.voter_account.has_voted {
            Some(ProposalErrorCode::AlreadyVoted)
        } else if self.proposal.rewards_paid > 0 {
            Some(ProposalErrorCode::ProposalFinalized)
        } else if self.proposal.voters.len() >= MAX_VOTERS {
            Some(ProposalErrorCode::VoterLimitReached)
        } else if vote && self.proposal.votes_for >= u64::MAX {
            Some(ProposalErrorCode::Overflow)
        } else if !vote && self.proposal.votes_against >= u64::MAX {
            Some(ProposalErrorCode::Overflow)
        } else {
            None
        }
    }

    /// The state that an attempt to vote leaves behind: unchanged where the
    /// vote is refused; else the vote is counted, the voter is added to the
    /// voters, and the record says who voted on what and how.
    pub open spec fn voted(self, vote: bool) -> VoteView {
        if self.vote_error(vote) is Some {
            self
        } else {
            VoteView {
                proposal: ProposalView {
                    votes_for: if vote {
                        self.proposal.votes_for + 1
                    } else {
                        self.proposal.votes_for
                    },
                    votes_against: if vote {
                        self.proposal.votes_against
                    } else {
                        self.proposal.votes_against + 1
                    },
                    voters: self.proposal.voters.push(self.user),
                    ..self.proposal
                },
                voter_account: VoterAccount {
                    voter: self.user,
                    proposal: self.proposal_key,
                    has_voted: true,
                    vote,
                },
                ..self
            }
        }
    }
}

impl VoteView {
    /// The state in which `voter` comes to vote for the first time: with a
    /// record that has not voted.
    pub open spec fn first_ballot(
        proposal_key: Pubkey,
        proposal: ProposalView,
        voter: Pubkey,
    ) -> VoteView {
        VoteView {
            proposal_key,
            proposal,
            voter_account: VoterAccount {
                voter,
                proposal: proposal_key,
                has_voted: false,
                vote: false,
            },
            user: voter,
        }
    }

    /// A vote that is accepted raises exactly one counter by one, the one
    /// of its side, and puts the voter last among the voters; nothing else
    /// of the proposal changes. So a tally that counted the voters before
    /// still does, and a well-formed proposal stays well formed whether the
    /// vote is accepted or refused.
    pub proof fn a_vote_counts_once(self, vote: bool)
        ensures
            self.vote_error(vote) is None ==> {
                let after = self.voted(vote).proposal;
                &&& after.votes_for == self.proposal.votes_for + if vote {
                    1nat
                } else {
                    0nat
                }
                &&& after.votes_against == self.proposal.votes_against + if vote {
                    0nat
                } else {
                    1nat
                }
                &&& after.voters == self.proposal.voters.push(self.user)
                &&& after.reward_pool == self.proposal.reward_pool
                &&& after.on_going
            },
            self.proposal.votes_for + self.proposal.votes_against == self.proposal.voters.len()
                ==> self.voted(vote).proposal.votes_for + self.voted(vote).proposal.votes_against
                == self.voted(vote).proposal.voters.len(),
            self.proposal.wf() ==> self.voted(vote).proposal.wf(),
    {
    }

    /// Nobody votes twice: after a vote was accepted, the next attempt with
    /// the voter's record is refused with `AlreadyVoted`, whichever way it
    /// goes, and changes nothing, the counters included.
    pub proof fn nobody_votes_twice(self, first: bool, second: bool)
        requires
            self.vote_error(first) is None,
        ensures
            self.voted(first).vote_error(second) == Some(ProposalErrorCode::AlreadyVoted),
            self.voted(first).voted(second) == self.voted(first),
    {
    }

    /// Where the records tell the truth, nobody stands twice among the
    /// voters. Take voters who are all different, and a record that says
    /// "has voted" if its voter is among them. After the attempt the voters
    /// are still all different, and a vote that was accepted has left both
    /// traces: in the record and among the voters.
    pub proof fn voters_stay_distinct(self, vote: bool)
        requires
            self.proposal.voters.no_duplicates(),
            self.proposal.voters.contains(self.user) ==> self.voter_account.has_voted,
        ensures
            self.voted(vote).proposal.voters.no_duplicates(),
            self.vote_error(vote) is None ==> {
                &&& self.voted(vote).voter_account.has_voted
                &&& self.voted(vote).voter_account.voter == self.user
                &&& self.voted(vote).voter_account.proposal == self.proposal_key
                &&& self.voted(vote).voter_account.vote == vote
                &&& self.voted(vote).proposal.voters.contains(self.user)
            },
    {
        if self.vote_error(vote) is None {
            let before = self.proposal.voters;
            let after = before.push(self.user);
            assert(after[before.len() as int] == self.user);
            assert forall|i: int, j: int| 0 <= i < after.len() && 0 <= j < after.len() && i != j implies after[i]
                != after[j] by {
                if i < before.len() {
                    assert(before.contains(before[i]));
                }
                if j < before.len() {
                    assert(before.contains(before[j]));
                }
            }
        }
    }

    /// No vote is taken once the proposal is closed, and no new voter is
    /// taken once it has begun to pay out: the attempt is refused with
    /// `ProposalFinalized` and changes nothing.
    pub proof fn no_vote_after_closing(self, vote: bool)
        requires
            !self.proposal.on_going || (self.proposal.rewards_paid > 0
                && !self.voter_account.has_voted),
        ensures
            self.vote_error(vote) == Some(ProposalErrorCode::ProposalFinalized),
            self.voted(vote) == self,
    {
    }

    /// On an open proposal a voter whose record says "has voted" is told
    /// so, whether or not a payout has begun or broken off: the attempt is
    /// refused with `AlreadyVoted` and changes nothing.
    pub proof fn a_voter_who_voted_is_told_so(self, vote: bool)
        requires
            self.proposal.on_going,
            self.voter_account.has_voted,
        ensures
            self.vote_error(vote) == Some(ProposalErrorCode::AlreadyVoted),
            self.voted(vote) == self,
    {
    }

    /// Each refusal has its ground and no other. `ProposalFinalized` is the
    /// answer exactly where the proposal is closed, or is paying out and
    /// the voter has not voted. `AlreadyVoted` is the answer exactly where
    /// the proposal is open and the record says "has voted". A vote is
    /// accepted exactly where the proposal is open and not paying out, the
    /// voter has not voted, there is room for a voter, and the counter of
    /// the vote's side can be raised. Every refusal changes nothing.
    pub proof fn each_refusal_has_its_ground(self, vote: bool)
        ensures
            self.vote_error(vote) == Some(ProposalErrorCode::ProposalFinalized)
                <==> !self.proposal.on_going || (self.proposal.rewards_paid > 0
                && !self.voter_account.has_voted),
            self.vote_error(vote) == Some(ProposalErrorCode::AlreadyVoted)
                <==> self.proposal.on_going && self.voter_account.has_voted,
            self.vote_error(vote) is None <==> {
                &&& self.proposal.on_going
                &&& !self.voter_account.has_voted
                &&& self.proposal.rewards_paid == 0
                &&& self.proposal.voters.len() < MAX_VOTERS
                &&& if vote {
                    self.proposal.votes_for < u64::MAX
                } else {
                    self.proposal.votes_against < u64::MAX
                }
            },
            self.vote_error(vote) is Some ==> self.voted(vote) == self,
    {
    }
}

/// The proposal after the `ballots` have been cast in turn, each by a voter
/// who comes with a record that has not voted, as voters do who differ from
/// one another.
pub open spec fn after_ballots(
    proposal_key: Pubkey,
    proposal: ProposalView,
    ballots: Seq<(Pubkey, bool)>,
) -> ProposalView
    decreases ballots.len(),
{
    if ballots.len() == 0 {
        proposal
    } else {
        VoteView::first_ballot(
            proposal_key,
            after_ballots(proposal_key, proposal, ballots.drop_last()),
            ballots.last().0,
        ).voted(ballots.last().1).proposal
    }
}

/// However many voters vote, one after the other, the two counters
/// together always equal the number of voters: after each single vote, not
/// only at the end. While the proposal is open and has room, each of these
/// votes is accepted, so the number of voters grows by one with each.
pub proof fn the_tally_counts_the_voters(
    proposal_key: Pubkey,
    proposal: ProposalView,
    ballots: Seq<(Pubkey, bool)>,
)
    requires
        proposal.votes_for + proposal.votes_against == proposal.voters.len(),
    ensures
        forall|k: int|
            0 <= k <= ballots.len() ==> {
                let then = #[trigger] after_ballots(proposal_key, proposal, ballots.take(k));
                &&& then.votes_for + then.votes_against == then.voters.len()
                &&& proposal.on_going && proposal.rewards_paid == 0 && proposal.voters.len() + k
                    <= MAX_VOTERS ==> then.voters.len() == proposal.voters.len() + k
            },
{
    assert forall|k: int| 0 <= k <= ballots.len() implies {
        let then = #[trigger] after_ballots(proposal_key, proposal, ballots.take(k));
        &&& then.votes_for + then.votes_against == then.voters.len()
        &&& proposal.on_going && proposal.rewards_paid == 0 && proposal.voters.len() + k
            <= MAX_VOTERS ==> then.voters.len() == proposal.voters.len() + k
    } by {
        lemma_after_ballots(proposal_key, proposal, ballots.take(k));
    }
}

proof fn lemma_after_ballots(
    proposal_key: Pubkey,
    proposal: ProposalView,
    ballots: Seq<(Pubkey, bool)>,
)
    requires
        proposal.votes_for + proposal.votes_against == proposal.voters.len(),
    ensures
        ({
            let then = after_ballots(proposal_key, proposal, ballots);
            &&& then.votes_for + then.votes_against == then.voters.len()
            &&& then.on_going == proposal.on_going
            &&& then.rewards_paid == proposal.rewards_paid
            &&& proposal.on_going && proposal.rewards_paid == 0 && proposal.voters.len()
                + ballots.len() <= MAX_VOTERS ==> then.voters.len() == proposal.voters.len()
                + ballots.len()
        }),
    decreases ballots.len(),
{
    if ballots.len() > 0 {
        lemma_after_ballots(proposal_key, proposal, ballots.drop_last());
    }
}

/// Casts the vote of `ctx.user` on the proposal: `true` in favour, `false`
/// against.
///
/// The vote is refused, and nothing changes,
/// - with `ProposalFinalized` if the proposal is closed;
/// - else with `AlreadyVoted` if the voter's record says so;
/// - else with `ProposalFinalized` if the proposal has begun to pay out its
///   rewards, which takes no new voter;
/// - else with `VoterLimitReached` if the proposal holds `MAX_VOTERS`
///   voters;
/// - else with `Overflow` if the counter to raise stands at `u64::MAX`.
///
/// Otherwise the vote is counted, the voter joins the voters, and the
/// record is filled in. No balance is touched.
pub fn vote_proposal_instruction(ctx: &mut Vote, vote: bool) -> (cast: Result<(), ProposalErrorCode>)
    ensures
        match cast {
            Ok(()) => old(ctx)@.vote_error(vote) is None,
            Err(error) => old(ctx)@.vote_error(vote) == Some(error),
        },
        final(ctx)@ == old(ctx)@.voted(vote),
        cast is Err ==> *final(ctx) == *old(ctx),
{
    if !ctx.proposal.on_going {
        return Err(ProposalErrorCode::ProposalFinalized);
    }
    if ctx.voter_account.has_voted {
        return Err(ProposalErrorCode::AlreadyVoted);
    }
    if ctx.proposal.rewards_paid > 0 {
        return Err(ProposalErrorCode::ProposalFinalized);
    }
    if ctx.proposal.voters.len() >= MAX_VOTERS {
        return Err(ProposalErrorCode::VoterLimitReached);
    }
    let counted = if vote {
        ctx.proposal.votes_for
    } else {
        ctx.proposal.votes_against
    };
    let raised = match counted.checked_add(1) {
        Some(raised) => raised,
        None => {
            return Err(ProposalErrorCode::Overflow);
        },
    };
    ctx.voter_account.voter = ctx.user;
    ctx.voter_account.proposal = ctx.proposal_key;
    ctx.voter_account.has_voted = true;
    ctx.voter_account.vote = vote;
    if vote {
        ctx.proposal.votes_for = raised;
    } else {
        ctx.proposal.votes_against = raised;
    }
    ctx.proposal.voters.push(ctx.user);
    Ok(())
}

} // verus!
