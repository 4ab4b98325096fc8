//! A quadratic-voting and stake-accounting engine for one pool of governance
//! proposals.
//!
//! Voters attach tokens to each vote. A voter's `k`-th vote on the same
//! proposal costs `BASE_STAKE * k * k`, and every accepted stake is added to
//! the voter's balance. The owner named at initialisation closes a proposal,
//! which then counts as passed when it has strictly more yes votes than no
//! votes.

pub mod contract;
pub mod error;
pub mod helpers;
pub mod history;
pub mod msg;
pub mod quadratic;
pub mod response;
pub mod state;
pub mod types;

pub use crate::error::ContractError;
