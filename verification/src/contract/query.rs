//! The operations that only read the ledger.

use crate::error::{ContractError, Failure};
use crate::msg::{GetProposalResponse, TokenStakeResponse};
use crate::state::{Ledger, LedgerView};
use vstd::prelude::*;

verus! {

/// The status and tally recorded under `proposal_id`, or `ProposalNotFound`.
pub open spec fn proposal_answer(ledger: LedgerView, proposal_id: u128) -> Result<
    GetProposalResponse,
    Failure,
> {
    if ledger.proposals.contains_key(proposal_id) {
        let tally = ledger.proposals[proposal_id];
        Ok(
            GetProposalResponse {
                status: tally.status,
                yes_votes: tally.yes_votes,
                no_votes: tally.no_votes,
            },
        )
    } else {
        Err(Failure::ProposalNotFound)
    }
}

/// The stake that `address` has paid in, zero where nothing is recorded.
pub open spec fn stake_answer(ledger: LedgerView, address: Seq<char>) -> TokenStakeResponse {
    TokenStakeResponse { token_balance: ledger.balance_of(address).token_balance }
}

/// Reads the status and the tally of the proposal `proposal_id`. The query
/// fails with `ProposalNotFound` where no vote has opened that proposal.
pub fn get_proposal(ledger: &Ledger, proposal_id: u128) -> (outcome: Result<
    GetProposalResponse,
    ContractError,
>)
    ensures
        match proposal_answer(ledger@, proposal_id) {
            Ok(answer) => outcome == Ok::<GetProposalResponse, ContractError>(answer),
            Err(failure) => outcome matches Err(error) && error@ == failure,
        },
{
    match ledger.load_proposal(proposal_id) {
        Some(proposal) => Ok(
            GetProposalResponse {
                status: proposal.status,
                yes_votes: proposal.yes_votes,
                no_votes: proposal.no_votes,
            },
        ),
        None => Err(ContractError::ProposalNotFound {  }),
    }
}

/// Reads the stake that `address` has paid in over all its votes. The query
/// never fails: a voter of whom nothing is recorded has paid in nothing.
pub fn token_balance(ledger: &Ledger, address: &str) -> (outcome: Result<
    TokenStakeResponse,
    ContractError,
>)
    ensures
        outcome == Ok::<TokenStakeResponse, ContractError>(stake_answer(ledger@, address@)),
{
    let token_balance = match ledger.load_balance(address) {
        Some(balance) => balance.token_balance,
        None => 0,
    };
    Ok(TokenStakeResponse { token_balance })
}

} // verus!
