//! What is stored of a proposal.

pub mod proposal;
