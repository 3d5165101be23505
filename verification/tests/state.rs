use anchor_lang::prelude::Pubkey;
use iron_throne_consensus::errors::ProposalErrorCode;
use iron_throne_consensus::ledger::{transfer, Wallet};
use iron_throne_consensus::state::proposal::{
    Percentage, Proposal, ProposalResult, MAX_DESCRIPTION_LEN, MAX_VOTERS,
};

fn key(tag: u8) -> Pubkey {
    Pubkey::new_from_array([tag; 32])
}

fn tallied(votes_for: u64, votes_against: u64) -> Proposal {
    let mut proposal = Proposal::new(key(1), String::from("Crown the heir"), 0);
    proposal.votes_for = votes_for;
    proposal.votes_against = votes_against;
    proposal
}

fn as_float(percentage: Option<Percentage>) -> Option<f64> {
    percentage.map(|p| p.votes as f64 / p.total as f64 * 100.0)
}

#[test]
fn a_new_proposal_is_open_and_empty() {
    let proposal = Proposal::new(key(1), String::from("Build the wall"), 100);
    assert_eq!(proposal.creator, key(1));
    assert_eq!(proposal.description, "Build the wall");
    assert!(proposal.on_going);
    assert_eq!(proposal.votes_for, 0);
    assert_eq!(proposal.votes_against, 0);
    assert!(proposal.voters.is_empty());
    assert_eq!(proposal.result, None);
    assert_eq!(proposal.get_result_enum(), None);
    assert_eq!(proposal.votes_for_percentage, None);
    assert_eq!(proposal.votes_against_percentage, None);
    assert_eq!(proposal.reward_pool, 100);
    assert_eq!(proposal.rewards_paid, 0);
}

#[test]
fn the_limits_are_256() {
    assert_eq!(MAX_DESCRIPTION_LEN, 256);
    assert_eq!(MAX_VOTERS, 256);
}

#[test]
fn more_votes_for_than_against_is_for() {
    let mut proposal = tallied(5, 3);
    assert_eq!(proposal.calculate_result(), ProposalResult::For);
}

#[test]
fn more_votes_against_than_for_is_against() {
    let mut proposal = tallied(3, 5);
    assert_eq!(proposal.calculate_result(), ProposalResult::Against);
}

#[test]
fn equal_votes_are_a_tie() {
    let mut proposal = tallied(2, 2);
    assert_eq!(proposal.calculate_result(), ProposalResult::Tie);
}

#[test]
fn no_votes_are_a_tie() {
    let mut proposal = tallied(0, 0);
    assert_eq!(proposal.calculate_result(), ProposalResult::Tie);
}

#[test]
fn one_vote_decides() {
    assert_eq!(tallied(1, 0).calculate_result(), ProposalResult::For);
    assert_eq!(tallied(0, 1).calculate_result(), ProposalResult::Against);
    assert_eq!(tallied(u64::MAX, u64::MAX - 1).calculate_result(), ProposalResult::For);
}

#[test]
fn calculate_result_leaves_the_proposal_alone() {
    let mut proposal = tallied(5, 3);
    proposal.calculate_result();
    assert_eq!(proposal.votes_for, 5);
    assert_eq!(proposal.votes_against, 3);
    assert_eq!(proposal.result, None);
    assert!(proposal.on_going);
}

#[test]
fn five_to_three_is_62_5_and_37_5_percent() {
    let mut proposal = tallied(5, 3);
    proposal.calculate_percentages();
    assert_eq!(proposal.votes_for_percentage, Some(Percentage { votes: 5, total: 8 }));
    assert_eq!(proposal.votes_against_percentage, Some(Percentage { votes: 3, total: 8 }));
    assert_eq!(as_float(proposal.votes_for_percentage), Some(62.5));
    assert_eq!(as_float(proposal.votes_against_percentage), Some(37.5));
    assert_eq!(proposal.votes_for_percentage.unwrap().basis_points(), 6250);
    assert_eq!(proposal.votes_against_percentage.unwrap().basis_points(), 3750);
}

#[test]
fn two_to_two_is_50_percent_each() {
    let mut proposal = tallied(2, 2);
    proposal.calculate_percentages();
    assert_eq!(as_float(proposal.votes_for_percentage), Some(50.0));
    assert_eq!(as_float(proposal.votes_against_percentage), Some(50.0));
    assert_eq!(proposal.votes_for_percentage.unwrap().basis_points(), 5000);
}

#[test]
fn no_votes_have_no_percentages() {
    let mut proposal = tallied(0, 0);
    proposal.votes_for_percentage = Some(Percentage { votes: 1, total: 2 });
    proposal.calculate_percentages();
    assert_eq!(proposal.votes_for_percentage, None);
    assert_eq!(proposal.votes_against_percentage, None);
}

#[test]
fn percentages_of_the_largest_counts_do_not_overflow() {
    let mut proposal = tallied(u64::MAX, u64::MAX);
    proposal.calculate_percentages();
    let total = 2 * (u64::MAX as u128);
    assert_eq!(proposal.votes_for_percentage, Some(Percentage { votes: u64::MAX, total }));
    assert_eq!(proposal.votes_for_percentage.unwrap().basis_points(), 5000);
}

#[test]
fn basis_points_round_down() {
    assert_eq!(Percentage { votes: 1, total: 3 }.basis_points(), 3333);
    assert_eq!(Percentage { votes: 2, total: 3 }.basis_points(), 6666);
    assert_eq!(Percentage { votes: 0, total: 7 }.basis_points(), 0);
    assert_eq!(Percentage { votes: 7, total: 7 }.basis_points(), 10000);
}

#[test]
fn calculate_percentages_changes_nothing_else() {
    let mut proposal = tallied(5, 3);
    proposal.calculate_percentages();
    assert_eq!(proposal.votes_for, 5);
    assert_eq!(proposal.votes_against, 3);
    assert_eq!(proposal.result, None);
    assert!(proposal.on_going);
    assert_eq!(proposal.creator, key(1));
}

#[test]
fn a_result_that_was_set_is_read_back() {
    let mut proposal = tallied(0, 0);
    for result in [ProposalResult::For, ProposalResult::Against, ProposalResult::Tie] {
        proposal.set_result_enum(result);
        assert_eq!(proposal.get_result_enum(), Some(result));
        assert_eq!(proposal.result, Some(result));
    }
    assert!(proposal.on_going);
    assert_eq!(proposal.votes_for, 0);
}

#[test]
fn results_are_stored_as_0_1_2() {
    assert_eq!(ProposalResult::For.code(), 0);
    assert_eq!(ProposalResult::Against.code(), 1);
    assert_eq!(ProposalResult::Tie.code(), 2);
    assert_eq!(ProposalResult::from_code(0), Some(ProposalResult::For));
    assert_eq!(ProposalResult::from_code(1), Some(ProposalResult::Against));
    assert_eq!(ProposalResult::from_code(2), Some(ProposalResult::Tie));
}

#[test]
fn other_numbers_stand_for_no_result() {
    assert_eq!(ProposalResult::from_code(3), None);
    assert_eq!(ProposalResult::from_code(255), None);
}

#[test]
fn every_result_survives_storing() {
    for result in [ProposalResult::For, ProposalResult::Against, ProposalResult::Tie] {
        assert_eq!(ProposalResult::from_code(result.code()), Some(result));
    }
}

#[test]
fn a_clone_is_the_same_proposal() {
    let mut proposal = tallied(5, 3);
    proposal.voters.push(key(7));
    proposal.voters.push(key(8));
    let copy = proposal.clone();
    assert_eq!(copy.creator, key(1));
    assert_eq!(copy.description, "Crown the heir");
    assert_eq!(copy.voters, vec![key(7), key(8)]);
    assert_eq!(copy.votes_for, 5);
    assert_eq!(copy.votes_against, 3);
}

#[test]
fn a_transfer_moves_the_amount() {
    let mut from = 10u64;
    let mut to = 5u64;
    assert_eq!(transfer(&mut from, &mut to, 4), Ok(()));
    assert_eq!(from, 6);
    assert_eq!(to, 9);
}

#[test]
fn a_transfer_of_everything_empties_the_payer() {
    let mut from = 10u64;
    let mut to = u64::MAX - 10;
    assert_eq!(transfer(&mut from, &mut to, 10), Ok(()));
    assert_eq!(from, 0);
    assert_eq!(to, u64::MAX);
}

#[test]
fn a_transfer_of_nothing_always_works() {
    let mut from = 0u64;
    let mut to = u64::MAX;
    assert_eq!(transfer(&mut from, &mut to, 0), Ok(()));
    assert_eq!(from, 0);
    assert_eq!(to, u64::MAX);
}

#[test]
fn a_transfer_beyond_the_balance_is_refused() {
    let mut from = 3u64;
    let mut to = 5u64;
    assert_eq!(transfer(&mut from, &mut to, 4), Err(ProposalErrorCode::InsufficientFunds));
    assert_eq!(from, 3);
    assert_eq!(to, 5);
}

#[test]
fn a_transfer_that_overflows_the_receiver_is_refused() {
    let mut from = 10u64;
    let mut to = u64::MAX - 3;
    assert_eq!(transfer(&mut from, &mut to, 4), Err(ProposalErrorCode::Overflow));
    assert_eq!(from, 10);
    assert_eq!(to, u64::MAX - 3);
}

#[test]
fn the_receiver_is_looked_at_first() {
    let mut from = 1u64;
    let mut to = u64::MAX;
    assert_eq!(transfer(&mut from, &mut to, 2), Err(ProposalErrorCode::Overflow));
    assert_eq!(from, 1);
    assert_eq!(to, u64::MAX);
}

#[test]
fn a_wallet_is_copied_with_its_key() {
    let wallet = Wallet { key: key(9), lamports: 12 };
    let copy = wallet;
    assert_eq!(copy.key, key(9));
    assert_eq!(wallet.clone().lamports, 12);
}
