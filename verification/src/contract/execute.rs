//! The two operations that change the ledger: casting a vote and closing a
//! proposal.

use crate::error::{state_not_found, ContractError, Failure};
use crate::helpers::{holds_exact_coin, validate_sent_sufficient_coin};
use crate::quadratic::{lemma_stake_grows, required_stake, stake_for};
use crate::response::{action_response, is_action_response};
use crate::state::{
    votes_cast, with_votes_cast, BalanceView, BalanceVote, Ledger, LedgerView, Proposal,
    ProposalStatus, ProposalView, Voter,
};
use crate::types::{Coin, MessageInfo, MessageInfoView};
use cosmwasm_std::Response;
use vstd::prelude::*;

verus! {

/// The tally of a proposal on which nobody has voted yet.
pub open spec fn fresh_proposal() -> ProposalView {
    ProposalView {
        status: ProposalStatus::InProgress,
        yes_votes: 0,
        no_votes: 0,
        voters: Seq::empty(),
    }
}

/// The tally from which a vote on `proposal_id` starts: the recorded one, or
/// a fresh one where the vote opens the proposal.
pub open spec fn tally_before(ledger: LedgerView, proposal_id: u128) -> ProposalView {
    if ledger.proposals.contains_key(proposal_id) {
        ledger.proposals[proposal_id]
    } else {
        fresh_proposal()
    }
}

/// The vote record from which a vote of `voter` starts: the recorded one, or
/// an empty one.
pub open spec fn record_before(ledger: LedgerView, voter: Seq<char>) -> Seq<(u128, u64)> {
    if ledger.voters.contains_key(voter) {
        ledger.voters[voter]
    } else {
        Seq::empty()
    }
}

/// `tally` with one more vote on the side that `yes_vote` names.
pub open spec fn counted(tally: ProposalView, yes_vote: bool) -> ProposalView {
    if yes_vote {
        ProposalView { yes_votes: (tally.yes_votes + 1) as u128, ..tally }
    } else {
        ProposalView { no_votes: (tally.no_votes + 1) as u128, ..tally }
    }
}

/// Which vote of `voter` on `proposal_id` the next one would be, counting
/// from one.
///
/// A vote that opens a proposal is a first vote, and so is a vote on an open
/// proposal by a voter of whom nothing is recorded. A voter who holds a
/// record, but none for this open proposal, is refused with
/// `ProposalNotFound`: only a voter's very first vote may join a proposal
/// that somebody else opened.
pub open spec fn next_vote_number(
    ledger: LedgerView,
    voter: Seq<char>,
    proposal_id: u128,
) -> Result<u64, Failure> {
    if ledger.proposals.contains_key(proposal_id) && ledger.voters.contains_key(voter) {
        match votes_cast(ledger.voters[voter], proposal_id) {
            None => Err(Failure::ProposalNotFound),
            Some(count) => if count == u64::MAX {
                Err(Failure::OverflowError)
            } else {
                Ok((count + 1) as u64)
            },
        }
    } else {
        Ok(1)
    }
}

/// The ledger after the vote numbered `number` of `info.sender` on
/// `proposal_id` was accepted: one more vote in the tally, the voter's count
/// for the proposal set to `number`, and the voter's balance raised by the
/// stake for that number. Nothing else changes.
pub open spec fn after_vote(
    ledger: LedgerView,
    info: MessageInfoView,
    proposal_id: u128,
    yes_vote: bool,
    number: u64,
) -> LedgerView {
    LedgerView {
        state: ledger.state,
        proposals: ledger.proposals.insert(
            proposal_id,
            counted(tally_before(ledger, proposal_id), yes_vote),
        ),
        voters: ledger.voters.insert(
            info.sender,
            with_votes_cast(record_before(ledger, info.sender), proposal_id, number),
        ),
        balances: ledger.balances.insert(
            info.sender,
            BalanceView {
                token_balance: (ledger.balance_of(info.sender).token_balance + stake_for(
                    number as nat,
                )) as u128,
                ..ledger.balance_of(info.sender)
            },
        ),
    }
}

/// What a vote does: the ledger that it leaves, or the reason for which it
/// is refused. The reasons are tested in the order in which they stand here:
/// a ledger that was never initialised, a tally at its limit, a vote without
/// a number, a stake out of range, funds without the exact stake, a proposal
/// that was closed, a balance that would leave its range.
pub open spec fn vote_outcome(
    ledger: LedgerView,
    info: MessageInfoView,
    proposal_id: u128,
    yes_vote: bool,
) -> Result<LedgerView, Failure> {
    let tally = tally_before(ledger, proposal_id);
    if ledger.state is None {
        Err(Failure::Std)
    } else if (if yes_vote {
        tally.yes_votes
    } else {
        tally.no_votes
    }) == u128::MAX {
        Err(Failure::OverflowError)
    } else {
        let denom = ledger.state->Some_0.denom;
        match next_vote_number(ledger, info.sender, proposal_id) {
            Err(failure) => Err(failure),
            Ok(number) => if stake_for(number as nat) > u128::MAX {
                Err(Failure::OverflowError)
            } else if !holds_exact_coin(info.funds, denom, stake_for(number as nat) as u128) {
                Err(Failure::InsufficientFundsSent)
            } else if tally.status != ProposalStatus::InProgress {
                Err(Failure::ProposalNotInProgress)
            } else if ledger.balance_of(info.sender).token_balance + stake_for(number as nat)
                > u128::MAX {
                Err(Failure::OverflowError)
            } else {
                Ok(after_vote(ledger, info, proposal_id, yes_vote, number))
            },
        }
    }
}

/// Casts one vote of `info.sender` on `proposal_id`, and opens the proposal
/// where it does not exist yet.
///
/// The vote is accepted when `info.funds` holds a coin of exactly the stake
/// owed for it in the voting denomination. Then the tally rises by one, the
/// voter's count for the proposal becomes the number of the vote, and the
/// voter's balance rises by the stake; the voter's counts for other proposals
/// stay as they are. A refused vote changes nothing.
///
/// Funds without the exact stake are refused with `InsufficientFundsSent` on
/// every proposal. A proposal that was closed takes no further votes: a vote
/// on it that brings the exact stake is refused with `ProposalNotInProgress`.
/// A voter who holds a record may open a new proposal, but may not join a
/// proposal that exists already unless the record has an entry for it (see
/// [`next_vote_number`]).
pub fn vote(ledger: &mut Ledger, info: MessageInfo, proposal_id: u128, yes_vote: bool) -> (outcome:
    Result<Response, ContractError>)
    ensures
        match vote_outcome(old(ledger)@, info@, proposal_id, yes_vote) {
            Ok(next) => {
                &&& outcome matches Ok(response)
                &&& is_action_response(response, "vote"@)
                &&& final(ledger)@ == next
            },
            Err(failure) => {
                &&& outcome matches Err(error)
                &&& error@ == failure
                &&& final(ledger)@ == old(ledger)@
            },
        },
{
    let state = match ledger.load_state() {
        Some(state) => state,
        None => {
            return Err(state_not_found());
        },
    };
    let existing = ledger.load_proposal(proposal_id);
    let is_open = existing.is_some();
    let mut proposal = match existing {
        Some(proposal) => proposal,
        None => Proposal {
            status: ProposalStatus::InProgress,
            yes_votes: 0,
            no_votes: 0,
            voters: Vec::new(),
        },
    };
    assert(proposal@.voters =~= tally_before(ledger@, proposal_id).voters);
    let counted_votes = if yes_vote {
        proposal.yes_votes.checked_add(1)
    } else {
        proposal.no_votes.checked_add(1)
    };
    match counted_votes {
        Some(votes) => {
            if yes_vote {
                proposal.yes_votes = votes;
            } else {
                proposal.no_votes = votes;
            }
        },
        None => {
            return Err(ContractError::OverflowError {  });
        },
    }
    let recorded = ledger.load_voter(info.sender.as_str());
    let has_record = recorded.is_some();
    let mut voter = match recorded {
        Some(voter) => voter,
        None => Voter { vote_count: Vec::new() },
    };
    let number: u64 = if is_open && has_record {
        match voter.votes_on(proposal_id) {
            Some(count) => match count.checked_add(1) {
                Some(next) => next,
                None => {
                    return Err(ContractError::OverflowError {  });
                },
            },
            None => {
                return Err(ContractError::ProposalNotFound {  });
            },
        }
    } else {
        1
    };
    let stake = match required_stake(number) {
        Ok(stake) => stake,
        Err(error) => {
            return Err(error);
        },
    };
    proof {
        lemma_stake_grows(1, number as nat);
    }
    let required = Coin { denom: state.denom.clone(), amount: stake };
    match validate_sent_sufficient_coin(info.funds.as_slice(), Some(required)) {
        Ok(()) => {},
        Err(error) => {
            return Err(error);
        },
    }
    if proposal.status != ProposalStatus::InProgress {
        return Err(ContractError::ProposalNotInProgress {  });
    }
    let mut balance = match ledger.load_balance(info.sender.as_str()) {
        Some(balance) => balance,
        None => BalanceVote::default(),
    };
    match balance.token_balance.checked_add(stake) {
        Some(total) => {
            balance.token_balance = total;
        },
        None => {
            return Err(ContractError::OverflowError {  });
        },
    }
    voter.record_votes(proposal_id, number);
    ledger.save_voter(info.sender.as_str(), voter);
    ledger.save_balance(info.sender.as_str(), balance);
    ledger.save_proposal(proposal_id, proposal);
    Ok(action_response("vote"))
}

/// The status that closing gives to a proposal with this tally: passed with
/// strictly more yes votes than no votes, rejected otherwise.
pub open spec fn verdict(tally: ProposalView) -> ProposalStatus {
    if tally.yes_votes > tally.no_votes {
        ProposalStatus::Passed
    } else {
        ProposalStatus::Rejected
    }
}

/// What closing a proposal does: the ledger that it leaves, or the reason for
/// which it is refused. The reasons are tested in the order in which they
/// stand here.
pub open spec fn end_vote_outcome(
    ledger: LedgerView,
    sender: Seq<char>,
    proposal_id: u128,
) -> Result<LedgerView, Failure> {
    if ledger.state is None {
        Err(Failure::Std)
    } else if sender != ledger.state->Some_0.owner {
        Err(Failure::Unauthorized)
    } else if !ledger.proposals.contains_key(proposal_id) {
        Err(Failure::ProposalNotFound)
    } else if ledger.proposals[proposal_id].status != ProposalStatus::InProgress {
        Err(Failure::ProposalNotInProgress)
    } else {
        let tally = ledger.proposals[proposal_id];
        Ok(
            LedgerView {
                proposals: ledger.proposals.insert(
                    proposal_id,
                    ProposalView { status: verdict(tally), ..tally },
                ),
                ..ledger
            },
        )
    }
}

/// Closes the proposal `proposal_id`. Only the owner may do so, and only
/// once: the proposal passes with strictly more yes votes than no votes and
/// is rejected otherwise, and its tally stays as it is. A refused call
/// changes nothing.
pub fn end_vote(ledger: &mut Ledger, info: MessageInfo, proposal_id: u128) -> (outcome: Result<
    Response,
    ContractError,
>)
    ensures
        match end_vote_outcome(old(ledger)@, info@.sender, proposal_id) {
            Ok(next) => {
                &&& outcome matches Ok(response)
                &&& is_action_response(response, "end_vote"@)
                &&& final(ledger)@ == next
            },
            Err(failure) => {
                &&& outcome matches Err(error)
                &&& error@ == failure
                &&& final(ledger)@ == old(ledger)@
            },
        },
{
    let state = match ledger.load_state() {
        Some(state) => state,
        None => {
            return Err(state_not_found());
        },
    };
    if info.sender != state.owner {
        return Err(ContractError::Unauthorized {  });
    }
    match ledger.load_proposal(proposal_id) {
        Some(mut proposal) => {
            if proposal.status != ProposalStatus::InProgress {
                return Err(ContractError::ProposalNotInProgress {  });
            }
            if proposal.yes_votes > proposal.no_votes {
                proposal.status = ProposalStatus::Passed;
            } else {
                proposal.status = ProposalStatus::Rejected;
            }
            ledger.save_proposal(proposal_id, proposal);
        },
        None => {
            return Err(ContractError::ProposalNotFound {  });
        },
    }
    Ok(action_response("end_vote"))
}

} // verus!
