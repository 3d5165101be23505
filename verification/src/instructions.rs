//! The three calls that change a proposal.

pub mod create_proposal;
pub mod finalize_proposal;
pub mod vote_proposal;

pub use create_proposal::{create_proposal_instruction, CreateProposal, CreateProposalView};
pub use finalize_proposal::{finalize_proposal_instruction, Finalize, FinalizeView};
pub use vote_proposal::{vote_proposal_instruction, Vote, VoteView, VoterAccount};
