//! The proposal record and the outcome of its vote.

use anchor_lang::prelude::Pubkey;
use vstd::prelude::*;

verus! {

/// The longest description a proposal may carry, in characters.
pub const MAX_DESCRIPTION_LEN: usize = 256;

/// The largest number of voters one proposal can hold.
pub const MAX_VOTERS: usize = 256;

/// How a vote ended.
#[derive(Clone, Copy, Debug, PartialEq, Eq, Structural)]
pub enum ProposalResult {
    /// More votes in favour than against.
    For,
    /// More votes against than in favour.
    Against,
    /// As many votes in favour as against; also the outcome of no votes.
    Tie,
}

impl ProposalResult {
    /// The outcome of a tally: a strict comparison of the two counts.
    pub open spec fn of_tally(votes_for: nat, votes_against: nat) -> ProposalResult {
        if votes_for > votes_against {
            ProposalResult::For
        } else if votes_for < votes_against {
            ProposalResult::Against
        } else {
            ProposalResult::Tie
        }
    }

    /// The number under which an outcome is stored: 0, 1 or 2.
    pub open spec fn code_of(self) -> u8 {
        match self {
            ProposalResult::For => 0,
            ProposalResult::Against => 1,
            ProposalResult::Tie => 2,
        }
    }

    /// The outcome stored under a number, if there is one.
    pub open spec fn of_code(code: u8) -> Option<ProposalResult> {
        if code == 0 {
            Some(ProposalResult::For)
        } else if code == 1 {
            Some(ProposalResult::Against)
        } else if code == 2 {
            Some(ProposalResult::Tie)
        } else {
            None
        }
    }

    /// The number under which this outcome is stored.
    pub fn code(self) -> (code: u8)
        ensures
            code == self.code_of(),
    {
        match self {
            ProposalResult::For => 0,
            ProposalResult::Against => 1,
            ProposalResult::Tie => 2,
        }
    }

    /// Reads a stored number back. Numbers above 2 stand for no outcome.
    pub fn from_code(code: u8) -> (result: Option<ProposalResult>)
        ensures
            result == ProposalResult::of_code(code),
    {
        match code {
            0 => Some(ProposalResult::For),
            1 => Some(ProposalResult::Against),
            2 => Some(ProposalResult::Tie),
            _ => None,
        }
    }

    /// Storing an outcome and reading it back gives the same outcome, and
    /// no two outcomes share a number.
    pub proof fn code_round_trip(result: ProposalResult, code: u8)
        ensures
            ProposalResult::of_code(result.code_of()) == Some(result),
            ProposalResult::of_code(code) == Some(result) <==> code == result.code_of(),
    {
    }
}

/// A share of the votes, kept exact: `votes` out of `total`, which reads as
/// `100 * votes / total` percent.
#[derive(Clone, Copy, Debug, PartialEq, Eq, Structural)]
pub struct Percentage {
    /// The votes counted for one side.
    pub votes: u64,
    /// All votes cast. Never zero in a percentage that a proposal holds.
    pub total: u128,
}

impl Percentage {
    /// The share of `votes` in `total`; there is none of an empty total.
    pub open spec fn of(votes: nat, total: nat) -> Option<Percentage> {
        if total > 0 {
            Some(Percentage { votes: votes as u64, total: total as u128 })
        } else {
            None
        }
    }

    /// The share in hundredths of a percent, rounded down.
    pub open spec fn hundredths(self) -> nat {
        (self.votes as nat * 10000) / (self.total as nat)
    }

    /// The share in hundredths of a percent, rounded down: 6250 stands for
    /// 62.5 %.
    pub fn basis_points(&self) -> (points: u128)
        requires
            self.total > 0,
        ensures
            points == self.hundredths(),
    {
        (self.votes as u128 * 10000) / self.total
    }
}

/// One governance proposal with its tally and its reward pool.
#[derive(Debug)]
pub struct Proposal {
    /// Who created the proposal. Nobody else may close it.
    pub creator: Pubkey,
    /// What is voted on.
    pub description: String,
    /// Votes in favour.
    pub votes_for: u64,
    /// Share of the votes in favour, set when the proposal is closed.
    pub votes_for_percentage: Option<Percentage>,
    /// Votes against.
    pub votes_against: u64,
    /// Share of the votes against, set when the proposal is closed.
    pub votes_against_percentage: Option<Percentage>,
    /// Whether votes are still taken.
    pub on_going: bool,
    /// Who has voted, in the order of voting.
    pub voters: Vec<Pubkey>,
    /// The outcome, set when the proposal is closed.
    pub result: Option<ProposalResult>,
    /// The amount set aside for the voters.
    pub reward_pool: u64,
    /// How many voters, counted from the first, have had their reward.
    pub rewards_paid: u64,
}

/// A proposal as contracts speak of it.
#[verifier::ext_equal]
pub struct ProposalView {
    pub creator: Pubkey,
    pub description: Seq<char>,
    pub votes_for: nat,
    pub votes_for_percentage: Option<Percentage>,
    pub votes_against: nat,
    pub votes_against_percentage: Option<Percentage>,
    pub on_going: bool,
    pub voters: Seq<Pubkey>,
    pub result: Option<ProposalResult>,
    pub reward_pool: nat,
    pub rewards_paid: nat,
}

impl View for Proposal {
    type V = ProposalView;

    open spec fn view(&self) -> ProposalView {
        ProposalView {
            creator: self.creator,
            description: self.description@,
            votes_for: self.votes_for as nat,
            votes_for_percentage: self.votes_for_percentage,
            votes_against: self.votes_against as nat,
            votes_against_percentage: self.votes_against_percentage,
            on_going: self.on_going,
            voters: self.voters@,
            result: self.result,
            reward_pool: self.reward_pool as nat,
            rewards_paid: self.rewards_paid as nat,
        }
    }
}

impl Clone for Proposal {
    /// A copy that holds what the proposal holds.
    fn clone(&self) -> (copy: Proposal)
        ensures
            copy@ == self@,
    {
        let mut voters: Vec<Pubkey> = Vec::new();
        let mut next: usize = 0;
        while next < self.voters.len()
            invariant
                next <= self.voters.len(),
                voters@ == self.voters@.take(next as int),
            decreases self.voters.len() - next,
        {
            voters.push(self.voters[next]);
            next = next + 1;
        }
        assert(self.voters@.take(self.voters.len() as int) == self.voters@);
        Proposal {
            creator: self.creator,
            description: self.description.clone(),
            votes_for: self.votes_for,
            votes_for_percentage: self.votes_for_percentage,
            votes_against: self.votes_against,
            votes_against_percentage: self.votes_against_percentage,
            on_going: self.on_going,
            voters,
            result: self.result,
            reward_pool: self.reward_pool,
            rewards_paid: self.rewards_paid,
        }
    }
}

impl ProposalView {
    /// All votes cast.
    pub open spec fn total_votes(self) -> nat {
        self.votes_for + self.votes_against
    }

    /// The outcome that the tally gives.
    pub open spec fn outcome(self) -> ProposalResult {
        ProposalResult::of_tally(self.votes_for, self.votes_against)
    }

    /// The proposal with both percentages taken from its tally.
    pub open spec fn with_percentages(self) -> ProposalView {
        ProposalView {
            votes_for_percentage: Percentage::of(self.votes_for, self.total_votes()),
            votes_against_percentage: Percentage::of(self.votes_against, self.total_votes()),
            ..self
        }
    }

    /// Whether a description may stand in a proposal.
    pub open spec fn description_fits(description: Seq<char>) -> bool {
        0 < description.len() <= MAX_DESCRIPTION_LEN
    }

    /// What holds of every proposal that was created, voted on and closed
    /// through this crate: the description fits, every voter is counted
    /// once in the tally, there are at most `MAX_VOTERS` voters, no more
    /// rewards are paid than there are voters, and a closed proposal holds
    /// the outcome and the percentages of its tally and, if anybody voted,
    /// an empty pool.
    pub open spec fn wf(self) -> bool {
        &&& ProposalView::description_fits(self.description)
        &&& self.votes_for + self.votes_against == self.voters.len()
        &&& self.voters.len() <= MAX_VOTERS
        &&& self.rewards_paid <= self.voters.len()
        &&& !self.on_going ==> {
            &&& self.result == Some(self.outcome())
            &&& self == self.with_percentages()
            &&& self.voters.len() > 0 ==> self.reward_pool == 0
        }
    }

    /// A proposal as it is right after its creation.
    pub open spec fn fresh(creator: Pubkey, description: Seq<char>, reward_pool: nat) -> ProposalView {
        ProposalView {
            creator,
            description,
            votes_for: 0,
            votes_for_percentage: None,
            votes_against: 0,
            votes_against_percentage: None,
            on_going: true,
            voters: Seq::empty(),
            result: None,
            reward_pool,
            rewards_paid: 0,
        }
    }
}

impl Proposal {
    /// A new, open proposal without votes.
    pub fn new(creator: Pubkey, description: String, reward_pool: u64) -> (proposal: Proposal)
        ensures
            proposal@ == ProposalView::fresh(creator, description@, reward_pool as nat),
            ProposalView::description_fits(description@) ==> proposal@.wf(),
    {
        Proposal {
            creator,
            description,
            votes_for: 0,
            votes_for_percentage: None,
            votes_against: 0,
            votes_against_percentage: None,
            on_going: true,
            voters: Vec::new(),
            result: None,
            reward_pool,
            rewards_paid: 0,
        }
    }

    /// The outcome, once the proposal is closed.
    pub fn get_result_enum(&self) -> (result: Option<ProposalResult>)
        ensures
            result == self@.result,
    {
        self.result
    }

    /// Records an outcome. Nothing else changes. A well-formed proposal
    /// stays so if it is open, or if the outcome is that of its tally.
    pub fn set_result_enum(&mut self, result: ProposalResult)
        ensures
            final(self)@ == (ProposalView { result: Some(result), ..old(self)@ }),
            old(self)@.wf() && (old(self)@.on_going || result == old(self)@.outcome())
                ==> final(self)@.wf(),
    {
        self.result = Some(result);
    }

    /// The outcome that the votes now give. The proposal is left as it is.
    pub fn calculate_result(&mut self) -> (result: ProposalResult)
        ensures
            result == old(self)@.outcome(),
            *final(self) == *old(self),
    {
        if self.votes_for > self.votes_against {
            ProposalResult::For
        } else if self.votes_for < self.votes_against {
            ProposalResult::Against
        } else {
            ProposalResult::Tie
        }
    }

    /// Sets both percentages from the votes: each side's share of all votes
    /// cast, or nothing where no vote was cast.
    pub fn calculate_percentages(&mut self)
        ensures
            final(self)@ == old(self)@.with_percentages(),
            old(self)@.wf() ==> final(self)@.wf(),
    {
        let total_votes: u128 = self.votes_for as u128 + self.votes_against as u128;
        if total_votes > 0 {
            self.votes_for_percentage = Some(Percentage { votes: self.votes_for, total: total_votes });
            self.votes_against_percentage = Some(
                Percentage { votes: self.votes_against, total: total_votes },
            );
        } else {
            self.votes_for_percentage = None;
            self.votes_against_percentage = None;
        }
    }
}

} // verus!
