//! The requests that the engine takes and the answers to its queries.

use crate::state::{ProposalStatus, State, StateView};
use vstd::prelude::*;

verus! {

/// The request that initialises the engine.
#[derive(Clone, Debug, PartialEq, Eq)]
pub struct InstantiateMsg {
    /// The denomination in which stakes are to be paid.
    pub denom: String,
}

impl View for InstantiateMsg {
    type V = Seq<char>;

    open spec fn view(&self) -> Seq<char> {
        self.denom@
    }
}

/// A request that changes the ledger.
#[derive(Clone, Copy, Debug, PartialEq, Eq, Structural)]
pub enum ExecuteMsg {
    /// Casts one vote, for the proposal if `yes_vote` holds and against it otherwise.
    Vote { proposal_id: u128, yes_vote: bool },
    /// Closes the proposal.
    EndVote { proposal_id: u128 },
}

/// A request that only reads the ledger.
#[derive(Clone, Debug, PartialEq, Eq)]
pub enum QueryMsg {
    Config {},
    GetProposal { proposal_id: u128 },
    TokenStake { address: String },
}

/// What a [`QueryMsg`] stands for in contracts.
pub ghost enum QueryMsgView {
    Config,
    GetProposal { proposal_id: u128 },
    TokenStake { address: Seq<char> },
}

impl View for QueryMsg {
    type V = QueryMsgView;

    open spec fn view(&self) -> QueryMsgView {
        match self {
            QueryMsg::Config {  } => QueryMsgView::Config,
            QueryMsg::GetProposal { proposal_id } => QueryMsgView::GetProposal {
                proposal_id: *proposal_id,
            },
            QueryMsg::TokenStake { address } => QueryMsgView::TokenStake { address: address@ },
        }
    }
}

/// The status and the tally of one proposal.
#[derive(Clone, Copy, Debug, PartialEq, Eq, Structural)]
pub struct GetProposalResponse {
    pub status: ProposalStatus,
    pub yes_votes: u128,
    pub no_votes: u128,
}

/// The stake that one voter has paid in.
#[derive(Clone, Copy, Debug, PartialEq, Eq, Structural)]
pub struct TokenStakeResponse {
    pub token_balance: u128,
}

/// The answer to a [`QueryMsg`], one variant for each kind of query.
#[derive(Clone, Debug, PartialEq, Eq)]
pub enum QueryResponse {
    Config(State),
    Proposal(GetProposalResponse),
    TokenStake(TokenStakeResponse),
}

/// What a [`QueryResponse`] stands for in contracts.
pub ghost enum QueryResponseView {
    Config(StateView),
    Proposal(GetProposalResponse),
    TokenStake(TokenStakeResponse),
}

impl View for QueryResponse {
    type V = QueryResponseView;

    open spec fn view(&self) -> QueryResponseView {
        match self {
            QueryResponse::Config(state) => QueryResponseView::Config(state@),
            QueryResponse::Proposal(proposal) => QueryResponseView::Proposal(*proposal),
            QueryResponse::TokenStake(stake) => QueryResponseView::TokenStake(*stake),
        }
    }
}

} // verus!
