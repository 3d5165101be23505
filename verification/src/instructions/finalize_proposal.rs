//! Closing a proposal: the outcome is fixed and the reward pool is paid out.

use crate::errors::ProposalErrorCode;
use crate::identity::same_key;
use crate::ledger::{lemma_total_after_credit, total_lamports, transfer, Wallet};
use crate::state::proposal::{Percentage, Proposal, ProposalResult, ProposalView};
use anchor_lang::prelude::Pubkey;
use vstd::prelude::*;

verus! {

/// What closing a proposal works on.
pub struct Finalize {
    /// The proposal to close.
    pub proposal: Proposal,
    /// The balance of the proposal's own account, out of which rewards are
    /// paid.
    pub proposal_lamports: u64,
    /// Who asks for the proposal to be closed.
    pub creator: Pubkey,
    /// The voters' balances, in the order in which they voted.
    pub remaining_accounts: Vec<Wallet>,
}

/// [`Finalize`] as contracts speak of it.
#[verifier::ext_equal]
pub struct FinalizeView {
    pub proposal: ProposalView,
    pub proposal_lamports: nat,
    pub creator: Pubkey,
    pub remaining_accounts: Seq<Wallet>,
}

impl View for Finalize {
    type V = FinalizeView;

    open spec fn view(&self) -> FinalizeView {
        FinalizeView {
            proposal: self.proposal@,
            proposal_lamports: self.proposal_lamports as nat,
            creator: self.creator,
            remaining_accounts: self.remaining_accounts@,
        }
    }
}

impl FinalizeView {
    /// Whether there is anything to pay out and anyone to pay it to.
    pub open spec fn settlement_due(self) -> bool {
        self.proposal.reward_pool > 0 && self.proposal.voters.len() > 0
    }

    /// What each voter receives: the pool divided by the number of voters,
    /// rounded down.
    pub open spec fn share(self) -> nat {
        self.proposal.reward_pool / self.proposal.voters.len()
    }

    /// Why the next voter in line cannot be paid, if that is so. The voter's
    /// balance must stand at the voter's place among the balances handed
    /// in, under the voter's key: else the answer is `InvalidVoterAccount`.
    /// Then the transfer itself must go through: the voter's balance must
    /// be able to take the share and the proposal's balance must hold it.
    /// Whichever of the two sums fails, the answer is `Overflow`.
    pub open spec fn payment_error(self) -> Option<ProposalErrorCode> {
        let next = self.proposal.rewards_paid as int;
        if next >= self.remaining_accounts.len() || self.remaining_accounts[next].key
            != self.proposal.voters[next] {
            Some(ProposalErrorCode::InvalidVoterAccount)
        } else if self.remaining_accounts[next].lamports + self.share() > u64::MAX
            || self.proposal_lamports < self.share() {
            Some(ProposalErrorCode::Overflow)
        } else {
            None
        }
    }

    /// The state after the next voter in line has been paid. It is spoken
    /// of only where that payment can be made, that is where
    /// `payment_error` is `None`.
    pub open spec fn pay_next(self) -> FinalizeView {
        let next = self.proposal.rewards_paid as int;
        FinalizeView {
            proposal: ProposalView { rewards_paid: self.proposal.rewards_paid + 1, ..self.proposal },
            proposal_lamports: (self.proposal_lamports - self.share()) as nat,
            remaining_accounts: self.remaining_accounts.update(
                next,
                self.remaining_accounts[next].credited(self.share()),
            ),
            ..self
        }
    }

    /// The state after the voters still unpaid have been paid in turn, up
    /// to the first who cannot be.
    pub open spec fn settled(self) -> FinalizeView
        decreases self.proposal.voters.len() - self.proposal.rewards_paid,
    {
        if self.proposal.rewards_paid >= self.proposal.voters.len() || self.payment_error() is Some {
            self
        } else {
            self.pay_next().settled()
        }
    }

    /// Whether the voter at place `i` stands paid in `after` as is due:
    /// the balance at that place, before the payment, stood under the
    /// voter's key and could take the share, and in `after` it is the same
    /// balance with exactly one share more.
    pub open spec fn paid_one_share(self, after: FinalizeView, i: int) -> bool {
        &&& 0 <= i < self.proposal.voters.len()
        &&& i < self.remaining_accounts.len()
        &&& i < after.remaining_accounts.len()
        &&& self.remaining_accounts[i].key == self.proposal.voters[i]
        &&& self.remaining_accounts[i].lamports + self.share() <= u64::MAX
        &&& after.remaining_accounts[i].key == self.remaining_accounts[i].key
        &&& after.remaining_accounts[i].lamports == self.remaining_accounts[i].lamports
            + self.share()
    }

    /// Whether every voter has been paid.
    pub open spec fn all_paid(self) -> bool {
        self.proposal.rewards_paid >= self.proposal.voters.len()
    }

    /// The state with the proposal closed: its outcome and percentages are
    /// those of the tally, and a pool that was paid out is empty.
    pub open spec fn closed(self) -> FinalizeView {
        FinalizeView {
            proposal: ProposalView {
                on_going: false,
                result: Some(self.proposal.outcome()),
                reward_pool: if self.settlement_due() {
                    0
                } else {
                    self.proposal.reward_pool
                },
                ..self.proposal.with_percentages()
            },
            ..self
        }
    }

    /// Why the proposal cannot be closed, if it cannot.
    pub open spec fn finalize_error(self) -> Option<ProposalErrorCode> {
        if !self.proposal.on_going {
            Some(ProposalErrorCode::ProposalFinalized)
        } else if self.creator != self.proposal.creator {
            Some(ProposalErrorCode::OnlyCreatorCanFinalize)
        } else if self.settlement_due() && !self.settled().all_paid() {
            self.settled().payment_error()
        } else {
            None
        }
    }

    /// The state that an attempt to close the proposal leaves behind.
    pub open spec fn finalized(self) -> FinalizeView {
        if !self.proposal.on_going || self.creator != self.proposal.creator {
            self
        } else if !self.settlement_due() {
            self.closed()
        } else if self.settled().all_paid() {
            self.settled().closed()
        } else {
            self.settled()
        }
    }
}

impl FinalizeView {
    /// Paying out touches nothing of the proposal but its count of rewards
    /// paid, which only grows and, where it was within the voters, stays
    /// within them. Each voter whom the count has passed was paid into the
    /// balance at the voter's place, which stood under the voter's key and
    /// could take the share, and now holds exactly one share more than
    /// before; every other balance handed in is as it was, those of the
    /// voters paid earlier among them. The proposal's balance is lower by
    /// one share for each voter paid.
    pub proof fn settlement_pays_each_unpaid_voter_once(self)
        ensures
            ({
                let after = self.settled();
                let from = self.proposal.rewards_paid;
                let to = after.proposal.rewards_paid;
                &&& after.proposal == (ProposalView { rewards_paid: to, ..self.proposal })
                &&& after.creator == self.creator
                &&& from <= to
                &&& from <= self.proposal.voters.len() ==> to <= self.proposal.voters.len()
                &&& after.remaining_accounts.len() == self.remaining_accounts.len()
                &&& forall|i: int|
                    0 <= i < self.remaining_accounts.len() ==> #[trigger] after.remaining_accounts[i]
                        == if from <= i < to {
                        self.remaining_accounts[i].credited(self.share())
                    } else {
                        self.remaining_accounts[i]
                    }
                &&& forall|i: int| from <= i < to ==> #[trigger] self.paid_one_share(after, i)
                &&& after.proposal_lamports + (to - from) * self.share() == self.proposal_lamports
            }),
        decreases self.proposal.voters.len() - self.proposal.rewards_paid,
    {
        if self.proposal.rewards_paid >= self.proposal.voters.len() || self.payment_error() is Some {
        } else {
            let paid = self.pay_next();
            paid.settlement_pays_each_unpaid_voter_once();
            let after = self.settled();
            let from = self.proposal.rewards_paid as int;
            let to = after.proposal.rewards_paid as int;
            let share = self.share() as int;
            assert(paid.share() == self.share());
            assert((to - from) * share == (to - (from + 1)) * share + share) by (nonlinear_arith);
            assert forall|i: int| from <= i < to implies #[trigger] self.paid_one_share(
                after,
                i,
            ) by {
                if i == from {
                    assert(after.remaining_accounts[i] == paid.remaining_accounts[i]);
                } else {
                    assert(paid.paid_one_share(after, i));
                    assert(paid.remaining_accounts[i] == self.remaining_accounts[i]);
                }
            }
        }
    }

    /// Paying out moves value and makes none: what leaves the proposal's
    /// balance is what the voters' balances gain.
    pub proof fn settlement_conserves_funds(self)
        ensures
            total_lamports(self.settled().remaining_accounts) + self.settled().proposal_lamports
                == total_lamports(self.remaining_accounts) + self.proposal_lamports,
        decreases self.proposal.voters.len() - self.proposal.rewards_paid,
    {
        if self.proposal.rewards_paid >= self.proposal.voters.len() || self.payment_error() is Some {
        } else {
            self.pay_next().settlement_conserves_funds();
            lemma_total_after_credit(
                self.remaining_accounts,
                self.proposal.rewards_paid as int,
                self.share(),
            );
        }
    }

    /// Paying out ends either with every voter paid or before a voter who
    /// cannot be paid, and paying out again from there changes nothing.
    pub proof fn settlement_stops_for_a_reason(self)
        ensures
            self.settled().all_paid() || self.settled().payment_error() is Some,
            self.settled().settled() == self.settled(),
        decreases self.proposal.voters.len() - self.proposal.rewards_paid,
    {
        if self.proposal.rewards_paid >= self.proposal.voters.len() || self.payment_error() is Some {
        } else {
            self.pay_next().settlement_stops_for_a_reason();
        }
    }

    /// The shares never add up to more than the pool: what the division
    /// leaves over is less than one unit per voter and is not paid out.
    pub proof fn shares_fit_the_pool(self)
        requires
            self.proposal.voters.len() > 0,
        ensures
            self.proposal.voters.len() * self.share() <= self.proposal.reward_pool,
            self.proposal.reward_pool - self.proposal.voters.len() * self.share()
                < self.proposal.voters.len(),
    {
        let pool = self.proposal.reward_pool as int;
        let count = self.proposal.voters.len() as int;
        assert(count * (pool / count) <= pool && pool - count * (pool / count) < count)
            by (nonlinear_arith)
            requires
                count > 0,
                pool >= 0,
        ;
    }

    /// Closing a proposal fails for four reasons and no others, each with
    /// its own answer. `ProposalFinalized`: the proposal is closed.
    /// `OnlyCreatorCanFinalize`: it is open and the caller is not its
    /// creator. The other two arise while paying out, at the first voter
    /// who cannot be paid, where the payout stops. `InvalidVoterAccount`:
    /// that voter's balance is missing or stands under another key.
    /// `Overflow`: that voter's balance cannot take the share, or the
    /// proposal's balance has run short of it.
    pub proof fn each_failure_has_its_ground(self)
        ensures
            self.finalize_error() == Some(ProposalErrorCode::ProposalFinalized)
                <==> !self.proposal.on_going,
            self.finalize_error() == Some(ProposalErrorCode::OnlyCreatorCanFinalize)
                <==> self.proposal.on_going && self.creator != self.proposal.creator,
            self.finalize_error() is None || self.finalize_error() == Some(
                ProposalErrorCode::ProposalFinalized,
            ) || self.finalize_error() == Some(ProposalErrorCode::OnlyCreatorCanFinalize)
                || self.finalize_error() == Some(ProposalErrorCode::InvalidVoterAccount)
                || self.finalize_error() == Some(ProposalErrorCode::Overflow),
            self.finalize_error() == Some(ProposalErrorCode::InvalidVoterAccount)
                || self.finalize_error() == Some(ProposalErrorCode::Overflow) ==> {
                let stopped = self.finalized();
                let next = stopped.proposal.rewards_paid as int;
                &&& stopped == self.settled()
                &&& stopped.proposal.on_going
                &&& stopped.proposal.reward_pool == self.proposal.reward_pool
                &&& next < self.proposal.voters.len()
                &&& self.finalize_error() == Some(ProposalErrorCode::InvalidVoterAccount) <==> (next
                    >= stopped.remaining_accounts.len() || stopped.remaining_accounts[next].key
                    != self.proposal.voters[next])
                &&& self.finalize_error() == Some(ProposalErrorCode::Overflow) <==> {
                    &&& next < stopped.remaining_accounts.len()
                    &&& stopped.remaining_accounts[next].key == self.proposal.voters[next]
                    &&& (stopped.remaining_accounts[next].lamports + self.share() > u64::MAX
                        || stopped.proposal_lamports < self.share())
                }
            },
    {
        self.settlement_pays_each_unpaid_voter_once();
        self.settlement_stops_for_a_reason();
    }

    /// A closed proposal is never closed again: the attempt is refused with
    /// `ProposalFinalized`, whoever makes it, and changes nothing.
    pub proof fn a_closed_proposal_stays_as_it_is(self)
        requires
            !self.proposal.on_going,
        ensures
            self.finalize_error() == Some(ProposalErrorCode::ProposalFinalized),
            self.finalized() == self,
    {
    }

    /// Nobody but the creator closes an open proposal: the attempt of anyone
    /// else is refused with `OnlyCreatorCanFinalize` and changes nothing.
    pub proof fn only_the_creator_finalizes(self)
        requires
            self.proposal.on_going,
            self.creator != self.proposal.creator,
        ensures
            self.finalize_error() == Some(ProposalErrorCode::OnlyCreatorCanFinalize),
            self.finalized() == self,
    {
    }

    /// An attempt that succeeds closes the proposal with the outcome and the
    /// percentages of its tally, and the next attempt is refused with
    /// `ProposalFinalized`. An attempt that fails leaves the proposal open
    /// and without an outcome recorded by it.
    pub proof fn finalize_closes_exactly_on_success(self)
        ensures
            self.finalize_error() is None ==> {
                let after = self.finalized();
                &&& !after.proposal.on_going
                &&& after.proposal.result == Some(self.proposal.outcome())
                &&& after.proposal.votes_for_percentage == Percentage::of(
                    self.proposal.votes_for,
                    self.proposal.total_votes(),
                )
                &&& after.proposal.votes_against_percentage == Percentage::of(
                    self.proposal.votes_against,
                    self.proposal.total_votes(),
                )
                &&& after.finalize_error() == Some(ProposalErrorCode::ProposalFinalized)
            },
            self.finalize_error() is Some ==> {
                let after = self.finalized();
                &&& after.proposal.on_going == self.proposal.on_going
                &&& after.proposal.result == self.proposal.result
                &&& after.proposal.reward_pool == self.proposal.reward_pool
            },
    {
        self.settlement_pays_each_unpaid_voter_once();
        self.settlement_stops_for_a_reason();
    }

    /// No attempt to close a proposal changes who created it, what it says,
    /// who voted or how: the tally that is closed is the tally that was
    /// voted.
    pub proof fn finalize_keeps_the_tally(self)
        ensures
            self.finalized().proposal.creator == self.proposal.creator,
            self.finalized().proposal.description == self.proposal.description,
            self.finalized().proposal.votes_for == self.proposal.votes_for,
            self.finalized().proposal.votes_against == self.proposal.votes_against,
            self.finalized().proposal.voters == self.proposal.voters,
            self.finalized().creator == self.creator,
    {
        self.settlement_pays_each_unpaid_voter_once();
    }

    /// Where the pool is empty or nobody voted, the creator's attempt on an
    /// open proposal succeeds without a payment: the proposal is closed, and
    /// every balance and the pool are as before.
    pub proof fn nothing_due_nothing_moved(self)
        requires
            self.proposal.on_going,
            self.creator == self.proposal.creator,
            self.proposal.reward_pool == 0 || self.proposal.voters.len() == 0,
        ensures
            self.finalize_error() is None,
            !self.finalized().proposal.on_going,
            self.finalized().remaining_accounts == self.remaining_accounts,
            self.finalized().proposal_lamports == self.proposal_lamports,
            self.finalized().proposal.reward_pool == self.proposal.reward_pool,
            self.finalized().proposal.rewards_paid == self.proposal.rewards_paid,
    {
    }

    /// Whatever an attempt to close a proposal does, it creates and destroys
    /// no value: the balances handed in and the proposal's balance add up to
    /// what they added up to before.
    pub proof fn finalize_conserves_funds(self)
        ensures
            total_lamports(self.finalized().remaining_accounts) + self.finalized().proposal_lamports
                == total_lamports(self.remaining_accounts) + self.proposal_lamports,
    {
        self.settlement_conserves_funds();
    }

    /// An attempt to close a proposal pays the voters from the first unpaid
    /// one up to where it stops, and nobody else: no balance of a voter paid
    /// earlier changes. Each voter paid was paid into the balance at the
    /// voter's place, which stood under the voter's key and could take the
    /// share, and now holds exactly one share more than before. Where the
    /// attempt succeeds after paying out, it has paid every voter who was
    /// still unpaid, and the pool is recorded as empty.
    pub proof fn finalize_pays_each_unpaid_voter_once(self)
        ensures
            ({
                let after = self.finalized();
                let from = self.proposal.rewards_paid;
                let to = after.proposal.rewards_paid;
                &&& from <= to
                &&& after.remaining_accounts.len() == self.remaining_accounts.len()
                &&& forall|i: int|
                    0 <= i < self.remaining_accounts.len() ==> #[trigger] after.remaining_accounts[i]
                        == if from <= i < to {
                        self.remaining_accounts[i].credited(self.share())
                    } else {
                        self.remaining_accounts[i]
                    }
                &&& forall|i: int| from <= i < to ==> #[trigger] self.paid_one_share(after, i)
                &&& after.proposal_lamports + (to - from) * self.share() == self.proposal_lamports
                &&& self.finalize_error() is None && self.settlement_due() ==> {
                    &&& to >= self.proposal.voters.len()
                    &&& after.proposal.reward_pool == 0
                }
            }),
    {
        self.settlement_pays_each_unpaid_voter_once();
        self.settlement_stops_for_a_reason();
        let after = self.finalized();
        let paid_now = after.proposal.rewards_paid - self.proposal.rewards_paid;
        let share = self.share();
        if paid_now == 0 {
            assert(paid_now * share == 0) by (nonlinear_arith)
                requires
                    paid_now == 0,
            ;
        }
        assert forall|i: int|
            self.proposal.rewards_paid <= i < after.proposal.rewards_paid implies #[trigger] self.paid_one_share(
            after,
            i,
        ) by {
            assert(after.remaining_accounts == self.settled().remaining_accounts);
            assert(after.proposal.rewards_paid == self.settled().proposal.rewards_paid);
            assert(self.paid_one_share(self.settled(), i));
        }
    }

    /// An attempt that broke off while paying out can be made again without
    /// harm. Take an attempt that failed, and a later attempt on the proposal
    /// as the first one left it, by the same caller, with the same number of
    /// balances handed in, whatever they now hold. The share is the same in
    /// both. The later attempt changes no balance of a voter who was paid
    /// by the first attempt or before it. Where it succeeds after paying
    /// out, it pays one share to each voter whom the first left unpaid: so
    /// each voter whom either of the two paid was paid by exactly one.
    pub proof fn a_failed_payout_can_be_retried(self, retry: FinalizeView)
        requires
            self.finalize_error() is Some,
            retry.proposal == self.finalized().proposal,
            retry.creator == self.finalized().creator,
            retry.remaining_accounts.len() == self.remaining_accounts.len(),
        ensures
            retry.share() == self.share(),
            forall|i: int|
                self.proposal.rewards_paid <= i < retry.proposal.rewards_paid
                    ==> #[trigger] self.paid_one_share(self.finalized(), i),
            forall|i: int|
                0 <= i < retry.proposal.rewards_paid && i < retry.remaining_accounts.len()
                    ==> #[trigger] retry.finalized().remaining_accounts[i]
                    == retry.remaining_accounts[i],
            retry.finalize_error() is None && retry.settlement_due() ==> forall|i: int|
                retry.proposal.rewards_paid <= i < self.proposal.voters.len() ==> {
                    &&& #[trigger] retry.paid_one_share(retry.finalized(), i)
                    &&& self.finalized().remaining_accounts[i] == self.remaining_accounts[i]
                },
    {
        self.finalize_pays_each_unpaid_voter_once();
        self.settlement_pays_each_unpaid_voter_once();
        retry.finalize_pays_each_unpaid_voter_once();
        retry.settlement_pays_each_unpaid_voter_once();
    }

    /// Closing keeps a proposal well formed, whether the attempt succeeds,
    /// is refused or breaks off.
    pub proof fn finalize_keeps_wf(self)
        requires
            self.proposal.wf(),
        ensures
            self.finalized().proposal.wf(),
    {
        self.settlement_pays_each_unpaid_voter_once();
    }
}

/// Closes a proposal.
///
/// Only an open proposal can be closed (`ProposalFinalized` otherwise), and
/// only by its creator (`OnlyCreatorCanFinalize`); a call refused for one of
/// these changes nothing.
///
/// If the pool holds a reward and there are voters, each voter who has not
/// had a reward yet is paid the pool divided by the number of voters,
/// rounded down, out of the proposal's balance. The voters are paid in the
/// order in which they voted, each into the balance that stands at the
/// voter's place in `ctx.remaining_accounts`. A payment cannot be made
/// - with `InvalidVoterAccount` if there is no balance at that place, or
///   one under another key;
/// - else with `Overflow` if the voter's balance cannot take the share or
///   the proposal's balance does not hold it.
///
/// The first payment that cannot be made ends the call with its error; the
/// payments made before it stand, the proposal remembers them and stays
/// open, so that a later call goes on where this one stopped. What the
/// division leaves over stays in the proposal's balance.
///
/// Once every voter is paid, or where there was nothing to pay, the
/// proposal is closed: the outcome and both percentages are recorded, a pool
/// that was paid out is set to zero, and the outcome is returned.
pub fn finalize_proposal_instruction(ctx: &mut Finalize) -> (outcome: Result<
    ProposalResult,
    ProposalErrorCode,
>)
    ensures
        match outcome {
            Ok(result) => old(ctx)@.finalize_error() is None && result == old(ctx)@.proposal.outcome(),
            Err(error) => old(ctx)@.finalize_error() == Some(error),
        },
        final(ctx)@ == old(ctx)@.finalized(),
        !old(ctx).proposal.on_going || old(ctx).creator != old(ctx).proposal.creator ==> *final(ctx)
            == *old(ctx),
{
    let ghost before = ctx@;
    if !ctx.proposal.on_going {
        return Err(ProposalErrorCode::ProposalFinalized);
    }
    if !same_key(&ctx.creator, &ctx.proposal.creator) {
        return Err(ProposalErrorCode::OnlyCreatorCanFinalize);
    }
    let num_voters = ctx.proposal.voters.len();
    if ctx.proposal.reward_pool > 0 && num_voters > 0 {
        let share = match ctx.proposal.reward_pool.checked_div(num_voters as u64) {
            Some(share) => share,
            None => {
                return Err(ProposalErrorCode::RewardDivisionError);
            },
        };
        while ctx.proposal.rewards_paid < num_voters as u64
            invariant
                before == old(ctx)@,
                before.proposal.on_going,
                before.creator == before.proposal.creator,
                before.settlement_due(),
                num_voters == ctx.proposal.voters.len(),
                share == ctx@.share(),
                ctx@.proposal == (ProposalView {
                    rewards_paid: ctx@.proposal.rewards_paid,
                    ..before.proposal
                }),
                ctx@.creator == before.creator,
                ctx@.settled() == before.settled(),
            decreases num_voters - ctx.proposal.rewards_paid,
        {
            let next = ctx.proposal.rewards_paid as usize;
            if next >= ctx.remaining_accounts.len() {
                return Err(ProposalErrorCode::InvalidVoterAccount);
            }
            if !same_key(&ctx.remaining_accounts[next].key, &ctx.proposal.voters[next]) {
                return Err(ProposalErrorCode::InvalidVoterAccount);
            }
            let ghost unpaid = ctx@;
            match transfer(
                &mut ctx.proposal_lamports,
                &mut ctx.remaining_accounts[next].lamports,
                share,
            ) {
                Ok(()) => {},
                Err(_) => {
                    return Err(ProposalErrorCode::Overflow);
                },
            }
            ctx.proposal.rewards_paid = ctx.proposal.rewards_paid + 1;
            assert(ctx@ =~= unpaid.pay_next());
        }
        ctx.proposal.reward_pool = 0;
    }
    ctx.proposal.calculate_percentages();
    let result = ctx.proposal.calculate_result();
    ctx.proposal.set_result_enum(result);
    ctx.proposal.on_going = false;
    Ok(result)
}

} // verus!
