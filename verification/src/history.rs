//! What holds of the ledger over whole sequences of requests.
//!
//! A history is a sequence of requests, each applied to the ledger that the
//! one before it left. A refused request leaves the ledger as it was.

use crate::contract::execute::{
    end_vote_outcome, next_vote_number, record_before, tally_before, vote_outcome,
};
use crate::contract::{after_instantiate, execute_outcome};
use crate::error::Failure;
use crate::helpers::holds_exact_coin;
use crate::msg::ExecuteMsg;
use crate::quadratic::stake_for;
use crate::state::{lemma_with_votes_cast, votes_cast, LedgerView, ProposalStatus};
use crate::types::MessageInfoView;
use vstd::prelude::*;

verus! {

/// One request to the engine, as contracts see it.
pub ghost enum Request {
    /// Initialisation by `sender` with the voting denomination `denom`.
    Instantiate { sender: Seq<char>, denom: Seq<char> },
    /// A vote or the closing of a proposal.
    Execute { info: MessageInfoView, msg: ExecuteMsg },
}

/// The ledger after `request` was handed to the engine in `ledger`.
pub open spec fn step(ledger: LedgerView, request: Request) -> LedgerView {
    match request {
        Request::Instantiate { sender, denom } => after_instantiate(ledger, sender, denom),
        Request::Execute { info, msg } => match execute_outcome(ledger, info, msg) {
            Ok(next) => next,
            Err(_) => ledger,
        },
    }
}

/// The ledger after all of `requests` were handed to the engine in turn,
/// the first of them in `start`.
pub open spec fn run(start: LedgerView, requests: Seq<Request>) -> LedgerView
    decreases requests.len(),
{
    if requests.len() == 0 {
        start
    } else {
        step(run(start, requests.drop_last()), requests.last())
    }
}

/// `request` is a vote on `proposal_id` that the engine accepts in `ledger`.
pub open spec fn is_accepted_vote(ledger: LedgerView, request: Request, proposal_id: u128) -> bool {
    &&& request matches Request::Execute { info, msg }
    &&& msg matches ExecuteMsg::Vote { proposal_id: target, yes_vote }
    &&& target == proposal_id
    &&& vote_outcome(ledger, info, proposal_id, yes_vote) is Ok
}

/// `request` is a vote of `voter` on `proposal_id` that the engine accepts
/// in `ledger`.
pub open spec fn is_accepted_vote_from(
    ledger: LedgerView,
    request: Request,
    voter: Seq<char>,
    proposal_id: u128,
) -> bool {
    &&& is_accepted_vote(ledger, request, proposal_id)
    &&& request->Execute_info.sender == voter
}

/// The number of votes on `proposal_id` that were accepted in the course of
/// `requests`, starting in `start`.
pub open spec fn votes_accepted(start: LedgerView, requests: Seq<Request>, proposal_id: u128) -> nat
    decreases requests.len(),
{
    if requests.len() == 0 {
        0
    } else {
        let earlier = requests.drop_last();
        votes_accepted(start, earlier, proposal_id) + (if is_accepted_vote(
            run(start, earlier),
            requests.last(),
            proposal_id,
        ) {
            1nat
        } else {
            0nat
        })
    }
}

/// The number of votes of `voter` on `proposal_id` that were accepted in the
/// course of `requests`, starting in `start`.
pub open spec fn votes_accepted_from(
    start: LedgerView,
    requests: Seq<Request>,
    voter: Seq<char>,
    proposal_id: u128,
) -> nat
    decreases requests.len(),
{
    if requests.len() == 0 {
        0
    } else {
        let earlier = requests.drop_last();
        votes_accepted_from(start, earlier, voter, proposal_id) + (if is_accepted_vote_from(
            run(start, earlier),
            requests.last(),
            voter,
            proposal_id,
        ) {
            1nat
        } else {
            0nat
        })
    }
}

/// The stake that `request` takes from `voter` in `ledger`: the stake for
/// the number of the vote where it is an accepted vote of `voter`, and
/// nothing for any other request.
pub open spec fn stake_taken(ledger: LedgerView, request: Request, voter: Seq<char>) -> nat {
    match request {
        Request::Execute { info, msg: ExecuteMsg::Vote { proposal_id, yes_vote } } => if info.sender
            == voter && vote_outcome(ledger, info, proposal_id, yes_vote) is Ok {
            stake_for(next_vote_number(ledger, voter, proposal_id)->Ok_0 as nat)
        } else {
            0
        },
        _ => 0,
    }
}

/// The sum of the stakes of the votes of `voter` that were accepted in the
/// course of `requests`, starting in `start`.
pub open spec fn stake_accepted_from(
    start: LedgerView,
    requests: Seq<Request>,
    voter: Seq<char>,
) -> nat
    decreases requests.len(),
{
    if requests.len() == 0 {
        0
    } else {
        let earlier = requests.drop_last();
        stake_accepted_from(start, earlier, voter) + stake_taken(
            run(start, earlier),
            requests.last(),
            voter,
        )
    }
}

/// The number of votes that the tally of `proposal_id` shows, zero for a
/// proposal that nobody has opened.
pub open spec fn votes_counted(ledger: LedgerView, proposal_id: u128) -> nat {
    if ledger.proposals.contains_key(proposal_id) {
        (ledger.proposals[proposal_id].yes_votes + ledger.proposals[proposal_id].no_votes) as nat
    } else {
        0
    }
}

/// Every request leaves the proposals that exist in existence, and adds one
/// vote to the tally of a proposal exactly when it is an accepted vote on it.
pub proof fn lemma_step_counts_vote(ledger: LedgerView, request: Request, proposal_id: u128)
    ensures
        ledger.proposals.contains_key(proposal_id) ==> step(ledger, request).proposals.contains_key(
            proposal_id,
        ),
        is_accepted_vote(ledger, request, proposal_id) ==> step(
            ledger,
            request,
        ).proposals.contains_key(proposal_id),
        votes_counted(step(ledger, request), proposal_id) == votes_counted(ledger, proposal_id) + (
        if is_accepted_vote(ledger, request, proposal_id) {
            1nat
        } else {
            0nat
        }),
{
}

/// The tally of a proposal grows by exactly the number of votes accepted on
/// it: after any history, yes votes and no votes together are the votes
/// that the proposal had at the start plus the accepted ones. From the empty
/// ledger they are the accepted votes.
pub proof fn lemma_tally_counts_accepted_votes(
    start: LedgerView,
    requests: Seq<Request>,
    proposal_id: u128,
)
    ensures
        votes_counted(run(start, requests), proposal_id) == votes_counted(start, proposal_id)
            + votes_accepted(start, requests, proposal_id),
        votes_counted(run(LedgerView::empty(), requests), proposal_id) == votes_accepted(
            LedgerView::empty(),
            requests,
            proposal_id,
        ),
    decreases requests.len(),
{
    if requests.len() != 0 {
        let earlier = requests.drop_last();
        lemma_tally_counts_accepted_votes(start, earlier, proposal_id);
    }
}

/// A request raises the balance of a voter by what it takes from that voter
/// as stake, and lowers no balance.
pub proof fn lemma_step_takes_stake(ledger: LedgerView, request: Request, voter: Seq<char>)
    ensures
        step(ledger, request).balance_of(voter).token_balance == ledger.balance_of(
            voter,
        ).token_balance + stake_taken(ledger, request, voter),
        step(ledger, request).balance_of(voter).token_balance >= ledger.balance_of(
            voter,
        ).token_balance,
{
}

/// The balance of a voter is the sum of the stakes accepted from that
/// voter: after any history it is the balance at the start plus the stakes
/// of the voter's accepted votes, so it never falls. From the empty ledger it
/// is the sum of those stakes.
pub proof fn lemma_balance_sums_accepted_stakes(
    start: LedgerView,
    requests: Seq<Request>,
    voter: Seq<char>,
)
    ensures
        run(start, requests).balance_of(voter).token_balance == start.balance_of(
            voter,
        ).token_balance + stake_accepted_from(start, requests, voter),
        run(start, requests).balance_of(voter).token_balance >= start.balance_of(
            voter,
        ).token_balance,
        run(LedgerView::empty(), requests).balance_of(voter).token_balance == stake_accepted_from(
            LedgerView::empty(),
            requests,
            voter,
        ),
    decreases requests.len(),
{
    if requests.len() != 0 {
        let earlier = requests.drop_last();
        lemma_balance_sums_accepted_stakes(start, earlier, voter);
    }
}

/// An accepted vote raises the voter's balance by exactly the stake for its
/// number, whatever else came with the funds.
pub proof fn lemma_accepted_vote_pays_its_stake(
    ledger: LedgerView,
    info: MessageInfoView,
    proposal_id: u128,
    yes_vote: bool,
)
    requires
        vote_outcome(ledger, info, proposal_id, yes_vote) is Ok,
    ensures
        next_vote_number(ledger, info.sender, proposal_id) matches Ok(number) && vote_outcome(
            ledger,
            info,
            proposal_id,
            yes_vote,
        )->Ok_0.balance_of(info.sender).token_balance == ledger.balance_of(
            info.sender,
        ).token_balance + stake_for(number as nat),
{
}

/// A vote is accepted only with the exact stake for its number, on every
/// proposal. Where the ledger is initialised, the tally has room, the vote
/// has a number and the stake for that number is in range, a vote without a
/// coin of exactly that stake in the voting denomination is refused with
/// `InsufficientFundsSent`. A vote with such a coin is refused only if the
/// proposal was closed or the balance would leave its range.
pub proof fn lemma_vote_needs_exact_stake(
    ledger: LedgerView,
    info: MessageInfoView,
    proposal_id: u128,
    yes_vote: bool,
)
    requires
        ledger.state is Some,
        (if yes_vote {
            tally_before(ledger, proposal_id).yes_votes
        } else {
            tally_before(ledger, proposal_id).no_votes
        }) < u128::MAX,
        next_vote_number(ledger, info.sender, proposal_id) matches Ok(number) && stake_for(
            number as nat,
        ) <= u128::MAX,
    ensures
        ({
            let number = next_vote_number(ledger, info.sender, proposal_id)->Ok_0;
            let denom = ledger.state->Some_0.denom;
            let outcome = vote_outcome(ledger, info, proposal_id, yes_vote);
            let paid = holds_exact_coin(info.funds, denom, stake_for(number as nat) as u128);
            &&& !paid ==> outcome == Err::<LedgerView, Failure>(Failure::InsufficientFundsSent)
            &&& outcome is Ok ==> paid
            &&& paid ==> (outcome is Ok || outcome == Err::<LedgerView, Failure>(
                Failure::ProposalNotInProgress,
            ) || outcome == Err::<LedgerView, Failure>(Failure::OverflowError))
            &&& paid && outcome == Err::<LedgerView, Failure>(Failure::ProposalNotInProgress)
                ==> tally_before(ledger, proposal_id).status != ProposalStatus::InProgress
        }),
{
}

/// The votes accepted from one voter on a proposal are among the votes
/// accepted on it.
pub proof fn lemma_votes_from_voter_are_counted(
    start: LedgerView,
    requests: Seq<Request>,
    voter: Seq<char>,
    proposal_id: u128,
)
    ensures
        votes_accepted_from(start, requests, voter, proposal_id) <= votes_accepted(
            start,
            requests,
            proposal_id,
        ),
    decreases requests.len(),
{
    if requests.len() != 0 {
        lemma_votes_from_voter_are_counted(start, requests.drop_last(), voter, proposal_id);
    }
}

/// From the empty ledger on, a voter's record counts the voter's accepted
/// votes: it shows for a proposal the number of votes accepted from the voter
/// on it, and shows nothing where none was accepted.
pub proof fn lemma_record_counts_accepted_votes(
    requests: Seq<Request>,
    voter: Seq<char>,
    proposal_id: u128,
)
    ensures
        match votes_cast(record_before(run(LedgerView::empty(), requests), voter), proposal_id) {
            Some(count) => count >= 1 && count == votes_accepted_from(
                LedgerView::empty(),
                requests,
                voter,
                proposal_id,
            ),
            None => votes_accepted_from(LedgerView::empty(), requests, voter, proposal_id) == 0,
        },
    decreases requests.len(),
{
    let start = LedgerView::empty();
    if requests.len() != 0 {
        let earlier = requests.drop_last();
        let before = run(start, earlier);
        let request = requests.last();
        lemma_record_counts_accepted_votes(earlier, voter, proposal_id);
        match request {
            Request::Execute { info, msg: ExecuteMsg::Vote { proposal_id: target, yes_vote } } => {
                if vote_outcome(before, info, target, yes_vote) is Ok && info.sender == voter {
                    let number = next_vote_number(before, voter, target)->Ok_0;
                    lemma_with_votes_cast(
                        record_before(before, voter),
                        target,
                        number,
                        proposal_id,
                    );
                    if target == proposal_id && !before.proposals.contains_key(proposal_id) {
                        lemma_tally_counts_accepted_votes(start, earlier, proposal_id);
                        lemma_votes_from_voter_are_counted(start, earlier, voter, proposal_id);
                    }
                }
            },
            _ => {},
        }
    }
}

/// The `k`-th vote of a voter on a proposal costs `stake_for(k)`: from the
/// empty ledger on, a vote that has a number has the number of votes already
/// accepted from the voter on the proposal plus one, and it is accepted only
/// with a coin of exactly the stake for that number in the voting
/// denomination.
pub proof fn lemma_kth_vote_costs_kth_stake(
    requests: Seq<Request>,
    info: MessageInfoView,
    proposal_id: u128,
    yes_vote: bool,
)
    ensures
        ({
            let ledger = run(LedgerView::empty(), requests);
            let k = votes_accepted_from(LedgerView::empty(), requests, info.sender, proposal_id)
                + 1;
            &&& next_vote_number(ledger, info.sender, proposal_id) matches Ok(number) ==> number
                == k
            &&& vote_outcome(ledger, info, proposal_id, yes_vote) is Ok ==> stake_for(k)
                <= u128::MAX && holds_exact_coin(
                info.funds,
                ledger.state->Some_0.denom,
                stake_for(k) as u128,
            )
        }),
{
    let start = LedgerView::empty();
    let ledger = run(start, requests);
    lemma_record_counts_accepted_votes(requests, info.sender, proposal_id);
    if !ledger.proposals.contains_key(proposal_id) {
        lemma_tally_counts_accepted_votes(start, requests, proposal_id);
        lemma_votes_from_voter_are_counted(start, requests, info.sender, proposal_id);
    }
}

/// Whoever is not the owner cannot close a proposal, whatever its tally: on
/// an initialised ledger the call is refused with `Unauthorized`.
pub proof fn lemma_only_owner_ends_vote(ledger: LedgerView, sender: Seq<char>, proposal_id: u128)
    requires
        ledger.state matches Some(state) && state.owner != sender,
    ensures
        end_vote_outcome(ledger, sender, proposal_id) == Err::<LedgerView, Failure>(
            Failure::Unauthorized,
        ),
{
}

/// `proposal_id` is recorded in `ledger` as closed.
pub open spec fn is_closed(ledger: LedgerView, proposal_id: u128) -> bool {
    ledger.proposals.contains_key(proposal_id) && ledger.proposals[proposal_id].status
        != ProposalStatus::InProgress
}

/// A closed proposal takes no further votes: every vote on it is refused,
/// whoever casts it and whatever funds come with it. Where no earlier test
/// refuses the vote, so that it has a number and brings the exact stake for
/// it, the refusal is `ProposalNotInProgress`.
pub proof fn lemma_closed_takes_no_votes(
    ledger: LedgerView,
    info: MessageInfoView,
    proposal_id: u128,
    yes_vote: bool,
)
    requires
        is_closed(ledger, proposal_id),
    ensures
        vote_outcome(ledger, info, proposal_id, yes_vote) is Err,
        ({
            &&& ledger.state matches Some(state)
            &&& (if yes_vote {
                ledger.proposals[proposal_id].yes_votes
            } else {
                ledger.proposals[proposal_id].no_votes
            }) < u128::MAX
            &&& next_vote_number(ledger, info.sender, proposal_id) matches Ok(number)
            &&& stake_for(number as nat) <= u128::MAX
            &&& holds_exact_coin(info.funds, state.denom, stake_for(number as nat) as u128)
        }) ==> vote_outcome(ledger, info, proposal_id, yes_vote) == Err::<LedgerView, Failure>(
            Failure::ProposalNotInProgress,
        ),
{
}

/// A closed proposal is final: no request reopens it, changes how it was
/// closed, or changes its tally.
pub proof fn lemma_closed_stays_closed(
    start: LedgerView,
    requests: Seq<Request>,
    proposal_id: u128,
)
    requires
        is_closed(start, proposal_id),
    ensures
        is_closed(run(start, requests), proposal_id),
        run(start, requests).proposals[proposal_id] == start.proposals[proposal_id],
    decreases requests.len(),
{
    if requests.len() != 0 {
        lemma_closed_stays_closed(start, requests.drop_last(), proposal_id);
    }
}

/// A proposal is closed only once: after a call that closed it, and whatever
/// requests came in between, every further call to close it is refused, and
/// the owner's with `ProposalNotInProgress`.
pub proof fn lemma_end_vote_only_once(
    ledger: LedgerView,
    sender: Seq<char>,
    proposal_id: u128,
    later: Seq<Request>,
    again: Seq<char>,
)
    requires
        end_vote_outcome(ledger, sender, proposal_id) is Ok,
    ensures
        ({
            let closed = end_vote_outcome(ledger, sender, proposal_id)->Ok_0;
            let now = run(closed, later);
            &&& end_vote_outcome(closed, sender, proposal_id) == Err::<LedgerView, Failure>(
                Failure::ProposalNotInProgress,
            )
            &&& end_vote_outcome(now, again, proposal_id) is Err
            &&& (now.state matches Some(state) && state.owner == again) ==> end_vote_outcome(
                now,
                again,
                proposal_id,
            ) == Err::<LedgerView, Failure>(Failure::ProposalNotInProgress)
        }),
{
    let closed = end_vote_outcome(ledger, sender, proposal_id)->Ok_0;
    lemma_closed_stays_closed(closed, later, proposal_id);
}

} // verus!
