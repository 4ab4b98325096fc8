//! The operations of the engine, each on the ledger that it is handed.

use crate::contract::execute::{end_vote, end_vote_outcome, vote, vote_outcome};
use crate::contract::query::{get_proposal, proposal_answer, stake_answer, token_balance};
use crate::error::{state_not_found, ContractError, Failure};
use crate::msg::{
    ExecuteMsg, InstantiateMsg, QueryMsg, QueryMsgView, QueryResponse, QueryResponseView,
};
use crate::response::{
    carries_only, empty_response, is_action_response, response_attributes, with_attribute,
};
use crate::state::{Ledger, LedgerView, State, StateView};
use crate::types::{MessageInfo, MessageInfoView};
use cosmwasm_std::Response;
use vstd::prelude::*;

pub mod execute;
pub mod query;

verus! {

/// The denomination in which a deployment usually takes its stakes.
pub const VOTING_TOKEN: &'static str = "voting_token";

/// The ledger after initialisation by `sender` with the voting denomination
/// `denom`: the configuration is written, and nothing else changes.
pub open spec fn after_instantiate(
    ledger: LedgerView,
    sender: Seq<char>,
    denom: Seq<char>,
) -> LedgerView {
    LedgerView { state: Some(StateView { denom, owner: sender }), ..ledger }
}

/// Initialises the engine: `msg.denom` becomes the voting denomination and
/// the caller becomes the owner. The reply names the method and the owner.
pub fn instantiate(ledger: &mut Ledger, info: MessageInfo, msg: InstantiateMsg) -> (outcome: Result<
    Response,
    ContractError,
>)
    ensures
        outcome matches Ok(response) && carries_only(
            response,
            seq![("method"@, "instantiate"@), ("owner"@, info@.sender)],
        ),
        final(ledger)@ == after_instantiate(old(ledger)@, info@.sender, msg@),
{
    proof {
        reveal_strlit("method");
        reveal_strlit("owner");
    }
    let response = with_attribute(
        with_attribute(empty_response(), "method", "instantiate"),
        "owner",
        info.sender.as_str(),
    );
    assert(response_attributes(response) =~= seq![
        ("method"@, "instantiate"@),
        ("owner"@, info@.sender),
    ]);
    ledger.save_state(State { denom: msg.denom, owner: info.sender });
    Ok(response)
}

/// What a request does to the ledger: the ledger that it leaves, or the
/// reason for which it is refused.
pub open spec fn execute_outcome(
    ledger: LedgerView,
    info: MessageInfoView,
    msg: ExecuteMsg,
) -> Result<LedgerView, Failure> {
    match msg {
        ExecuteMsg::Vote { proposal_id, yes_vote } => vote_outcome(
            ledger,
            info,
            proposal_id,
            yes_vote,
        ),
        ExecuteMsg::EndVote { proposal_id } => end_vote_outcome(ledger, info.sender, proposal_id),
    }
}

/// The value that the reply to an accepted request reports under `"action"`.
pub open spec fn action_of(msg: ExecuteMsg) -> Seq<char> {
    match msg {
        ExecuteMsg::Vote { .. } => "vote"@,
        ExecuteMsg::EndVote { .. } => "end_vote"@,
    }
}

/// Carries out one request: a vote or the closing of a proposal. A refused
/// request changes nothing.
pub fn execute(ledger: &mut Ledger, info: MessageInfo, msg: ExecuteMsg) -> (outcome: Result<
    Response,
    ContractError,
>)
    ensures
        match execute_outcome(old(ledger)@, info@, msg) {
            Ok(next) => {
                &&& outcome matches Ok(response)
                &&& is_action_response(response, action_of(msg))
                &&& final(ledger)@ == next
            },
            Err(failure) => {
                &&& outcome matches Err(error)
                &&& error@ == failure
                &&& final(ledger)@ == old(ledger)@
            },
        },
{
    match msg {
        ExecuteMsg::Vote { proposal_id, yes_vote } => vote(ledger, info, proposal_id, yes_vote),
        ExecuteMsg::EndVote { proposal_id } => end_vote(ledger, info, proposal_id),
    }
}

/// The answer to a query, or the reason for which it fails.
pub open spec fn query_outcome(ledger: LedgerView, msg: QueryMsgView) -> Result<
    QueryResponseView,
    Failure,
> {
    match msg {
        QueryMsgView::Config => match ledger.state {
            Some(state) => Ok(QueryResponseView::Config(state)),
            None => Err(Failure::Std),
        },
        QueryMsgView::TokenStake { address } => Ok(
            QueryResponseView::TokenStake(stake_answer(ledger, address)),
        ),
        QueryMsgView::GetProposal { proposal_id } => match proposal_answer(ledger, proposal_id) {
            Ok(answer) => Ok(QueryResponseView::Proposal(answer)),
            Err(failure) => Err(failure),
        },
    }
}

/// Answers one query: the configuration, the stake of a voter, or the status
/// and tally of a proposal.
pub fn query(ledger: &Ledger, msg: QueryMsg) -> (outcome: Result<QueryResponse, ContractError>)
    ensures
        match query_outcome(ledger@, msg@) {
            Ok(answer) => outcome matches Ok(response) && response@ == answer,
            Err(failure) => outcome matches Err(error) && error@ == failure,
        },
{
    match msg {
        QueryMsg::Config {  } => match ledger.load_state() {
            Some(state) => Ok(QueryResponse::Config(state)),
            None => Err(state_not_found()),
        },
        QueryMsg::TokenStake { address } => match token_balance(ledger, address.as_str()) {
            Ok(stake) => Ok(QueryResponse::TokenStake(stake)),
            Err(error) => Err(error),
        },
        QueryMsg::GetProposal { proposal_id } => match get_proposal(ledger, proposal_id) {
            Ok(proposal) => Ok(QueryResponse::Proposal(proposal)),
            Err(error) => Err(error),
        },
    }
}

} // verus!
