//! Governance: proposals, weighted voting with one vote per voter, and
//! proof-of-utility rewards.

pub mod governance;
pub mod proof_of_utility;
