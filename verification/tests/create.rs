use anchor_lang::prelude::Pubkey;
use iron_throne_consensus::create_proposal;
use iron_throne_consensus::errors::ProposalErrorCode;
use iron_throne_consensus::instructions::{create_proposal_instruction, CreateProposal};
use iron_throne_consensus::ledger::Wallet;
use iron_throne_consensus::state::proposal::{Proposal, ProposalResult};

fn key(tag: u8) -> Pubkey {
    Pubkey::new_from_array([tag; 32])
}

fn empty_slot(user_lamports: u64, proposal_lamports: u64) -> CreateProposal {
    CreateProposal {
        proposal_key: key(100),
        proposal: None,
        proposal_lamports,
        user: Wallet { key: key(1), lamports: user_lamports },
    }
}

fn assert_untouched(ctx: &CreateProposal, user_lamports: u64, proposal_lamports: u64) {
    assert!(ctx.proposal.is_none());
    assert_eq!(ctx.proposal_key, key(100));
    assert_eq!(ctx.proposal_lamports, proposal_lamports);
    assert_eq!(ctx.user.key, key(1));
    assert_eq!(ctx.user.lamports, user_lamports);
}

#[test]
fn create_makes_an_open_proposal() {
    let mut ctx = empty_slot(1_000, 7);
    let created = create_proposal_instruction(&mut ctx, String::from("Raise the banners"), 100);
    assert_eq!(created, Ok(key(100)));
    let proposal = ctx.proposal.as_ref().unwrap();
    assert_eq!(proposal.creator, key(1));
    assert_eq!(proposal.description, "Raise the banners");
    assert_eq!(proposal.votes_for, 0);
    assert_eq!(proposal.votes_against, 0);
    assert!(proposal.on_going);
    assert!(proposal.voters.is_empty());
    assert_eq!(proposal.result, None::<ProposalResult>);
    assert_eq!(proposal.votes_for_percentage, None);
    assert_eq!(proposal.votes_against_percentage, None);
    assert_eq!(proposal.reward_pool, 100);
    assert_eq!(proposal.rewards_paid, 0);
}

#[test]
fn create_moves_the_reward_into_the_pool() {
    let mut ctx = empty_slot(1_000, 7);
    create_proposal_instruction(&mut ctx, String::from("Raise the banners"), 100).unwrap();
    assert_eq!(ctx.user.lamports, 900);
    assert_eq!(ctx.proposal_lamports, 107);
    assert_eq!(ctx.user.key, key(1));
    assert_eq!(ctx.proposal_key, key(100));
}

#[test]
fn create_without_a_reward_moves_nothing() {
    let mut ctx = empty_slot(0, u64::MAX);
    let created = create_proposal_instruction(&mut ctx, String::from("Raise the banners"), 0);
    assert_eq!(created, Ok(key(100)));
    assert_eq!(ctx.user.lamports, 0);
    assert_eq!(ctx.proposal_lamports, u64::MAX);
    assert_eq!(ctx.proposal.as_ref().unwrap().reward_pool, 0);
}

#[test]
fn create_may_take_the_whole_balance() {
    let mut ctx = empty_slot(100, 0);
    let created = create_proposal_instruction(&mut ctx, String::from("All in"), 100);
    assert_eq!(created, Ok(key(100)));
    assert_eq!(ctx.user.lamports, 0);
    assert_eq!(ctx.proposal_lamports, 100);
}

#[test]
fn create_refuses_an_empty_description() {
    let mut ctx = empty_slot(1_000, 7);
    let created = create_proposal_instruction(&mut ctx, String::new(), 100);
    assert_eq!(created, Err(ProposalErrorCode::DescriptionRequired));
    assert_untouched(&ctx, 1_000, 7);
}

#[test]
fn create_takes_a_description_of_256_characters() {
    let mut ctx = empty_slot(1_000, 7);
    let created = create_proposal_instruction(&mut ctx, "x".repeat(256), 0);
    assert_eq!(created, Ok(key(100)));
    assert_eq!(ctx.proposal.as_ref().unwrap().description.len(), 256);
}

#[test]
fn create_refuses_a_description_of_257_characters() {
    let mut ctx = empty_slot(1_000, 7);
    let created = create_proposal_instruction(&mut ctx, "x".repeat(257), 100);
    assert_eq!(created, Err(ProposalErrorCode::DescriptionTooLong));
    assert_untouched(&ctx, 1_000, 7);
}

#[test]
fn create_measures_the_description_in_characters() {
    // 256 letters of two bytes each are 256 characters, 257 are one too many.
    let mut ctx = empty_slot(1_000, 7);
    assert_eq!(create_proposal_instruction(&mut ctx, "é".repeat(256), 0), Ok(key(100)));
    assert_eq!(ctx.proposal.as_ref().unwrap().description.chars().count(), 256);
    let mut ctx = empty_slot(1_000, 7);
    assert_eq!(
        create_proposal_instruction(&mut ctx, "é".repeat(257), 0),
        Err(ProposalErrorCode::DescriptionTooLong)
    );
    assert_untouched(&ctx, 1_000, 7);
}

#[test]
fn create_takes_a_description_of_one_character() {
    let mut ctx = empty_slot(1_000, 7);
    assert_eq!(create_proposal_instruction(&mut ctx, String::from("x"), 0), Ok(key(100)));
    assert_eq!(ctx.proposal.as_ref().unwrap().description, "x");
}

#[test]
fn create_never_overwrites_a_proposal() {
    let mut existing = Proposal::new(key(2), String::from("The first"), 50);
    existing.votes_for = 1;
    existing.voters.push(key(3));
    let mut ctx = CreateProposal {
        proposal_key: key(100),
        proposal: Some(existing),
        proposal_lamports: 50,
        user: Wallet { key: key(1), lamports: 1_000 },
    };
    let created = create_proposal_instruction(&mut ctx, String::from("The second"), 100);
    assert_eq!(created, Err(ProposalErrorCode::AlreadyExists));
    let kept = ctx.proposal.as_ref().unwrap();
    assert_eq!(kept.creator, key(2));
    assert_eq!(kept.description, "The first");
    assert_eq!(kept.votes_for, 1);
    assert_eq!(kept.voters, vec![key(3)]);
    assert_eq!(kept.reward_pool, 50);
    assert_eq!(ctx.proposal_lamports, 50);
    assert_eq!(ctx.user.lamports, 1_000);
}

#[test]
fn create_looks_at_the_description_before_the_slot() {
    let mut ctx = CreateProposal {
        proposal_key: key(100),
        proposal: Some(Proposal::new(key(2), String::from("The first"), 0)),
        proposal_lamports: 0,
        user: Wallet { key: key(1), lamports: 0 },
    };
    assert_eq!(
        create_proposal_instruction(&mut ctx, String::new(), 0),
        Err(ProposalErrorCode::DescriptionRequired)
    );
    assert_eq!(
        create_proposal_instruction(&mut ctx, "x".repeat(300), 0),
        Err(ProposalErrorCode::DescriptionTooLong)
    );
}

#[test]
fn create_fails_without_the_funds() {
    let mut ctx = empty_slot(99, 7);
    let created = create_proposal_instruction(&mut ctx, String::from("Raise the banners"), 100);
    assert_eq!(created, Err(ProposalErrorCode::InsufficientFunds));
    assert_untouched(&ctx, 99, 7);
}

#[test]
fn create_reports_the_missing_funds_before_the_full_pool() {
    // The creator cannot pay the reward, and the proposal's balance could
    // not take it either: the creator's side is reported.
    let mut ctx = empty_slot(5, 1);
    let created = create_proposal_instruction(&mut ctx, String::from("Raise the banners"), u64::MAX);
    assert_eq!(created, Err(ProposalErrorCode::InsufficientFunds));
    assert_untouched(&ctx, 5, 1);

    let mut ctx = empty_slot(0, u64::MAX);
    let created = create_proposal_instruction(&mut ctx, String::from("Raise the banners"), 1);
    assert_eq!(created, Err(ProposalErrorCode::InsufficientFunds));
    assert_untouched(&ctx, 0, u64::MAX);
}

#[test]
fn create_fails_where_the_pool_cannot_take_the_reward() {
    let mut ctx = empty_slot(1_000, u64::MAX - 99);
    let created = create_proposal_instruction(&mut ctx, String::from("Raise the banners"), 100);
    assert_eq!(created, Err(ProposalErrorCode::Overflow));
    assert_untouched(&ctx, 1_000, u64::MAX - 99);
}

#[test]
fn create_keeps_the_sum_of_the_two_balances() {
    let mut ctx = empty_slot(1_000, 7);
    create_proposal_instruction(&mut ctx, String::from("Raise the banners"), 333).unwrap();
    assert_eq!(ctx.user.lamports + ctx.proposal_lamports, 1_007);
}

#[test]
fn the_entry_point_creates_as_the_instruction_does() {
    let mut ctx = empty_slot(1_000, 7);
    assert_eq!(create_proposal(&mut ctx, String::from("Raise the banners"), 100), Ok(key(100)));
    assert_eq!(ctx.user.lamports, 900);
    assert_eq!(ctx.proposal_lamports, 107);
    assert_eq!(ctx.proposal.as_ref().unwrap().creator, key(1));
    assert_eq!(
        create_proposal(&mut ctx, String::from("Again"), 100),
        Err(ProposalErrorCode::AlreadyExists)
    );
    assert_eq!(ctx.user.lamports, 900);
}
