//! The cost of a vote as a function of how often the voter has already voted
//! on the same proposal.

use crate::error::{ContractError, Failure};
use vstd::prelude::*;

verus! {

/// The stake that a voter's first vote on a proposal costs.
pub const BASE_STAKE: u128 = 1000;

/// The stake owed for the `k`-th vote of one voter on one proposal.
pub open spec fn stake_for(k: nat) -> nat {
    BASE_STAKE as nat * k * k
}

/// A later vote never costs less than an earlier one, and the first one
/// costs `BASE_STAKE`.
pub proof fn lemma_stake_grows(earlier: nat, later: nat)
    requires
        earlier <= later,
    ensures
        stake_for(earlier) <= stake_for(later),
        stake_for(1) == BASE_STAKE,
{
    assert(earlier * earlier <= later * later) by (nonlinear_arith)
        requires
            earlier <= later,
    ;
    assert(BASE_STAKE as nat * earlier * earlier <= BASE_STAKE as nat * later * later)
        by (nonlinear_arith)
        requires
            earlier * earlier <= later * later,
    ;
}

/// Computes the stake owed for the `k`-th vote. Where that amount does not
/// fit in a `u128` the computation fails with `OverflowError`.
pub fn required_stake(k: u64) -> (stake: Result<u128, ContractError>)
    ensures
        stake_for(k as nat) <= u128::MAX ==> stake == Ok::<u128, ContractError>(
            stake_for(k as nat) as u128,
        ),
        stake_for(k as nat) > u128::MAX ==> (stake matches Err(error) && error@
            == Failure::OverflowError),
{
    let wide: u128 = k as u128;
    assert(wide * wide <= u128::MAX) by (nonlinear_arith)
        requires
            wide <= u64::MAX,
    ;
    let square: u128 = wide * wide;
    assert(BASE_STAKE as nat * (k as nat) * (k as nat) == BASE_STAKE * square) by (nonlinear_arith)
        requires
            square == (k as nat) * (k as nat),
    ;
    match BASE_STAKE.checked_mul(square) {
        Some(stake) => Ok(stake),
        None => Err(ContractError::OverflowError {  }),
    }
}

} // verus!
