use voting::contract::{execute, instantiate, query};
use voting::msg::{ExecuteMsg, InstantiateMsg, QueryMsg, QueryResponse};
use voting::state::{Ledger, ProposalStatus};
use voting::types::{coins, MessageInfo};

const VOTING_TOKEN: &str = "voting_token";
const TEST_VOTER: &str = "voter1";
const TEST_VOTER_2: &str = "voter2";
const TEST_VOTER_3: &str = "voter3";

fn mock_info(sender: &str, funds: &[voting::types::Coin]) -> MessageInfo {
    MessageInfo { sender: sender.to_string(), funds: funds.to_vec() }
}

fn proposal_of(ledger: &Ledger, proposal_id: u128) -> voting::msg::GetProposalResponse {
    match query(ledger, QueryMsg::GetProposal { proposal_id }).unwrap() {
        QueryResponse::Proposal(value) => value,
        other => panic!("unexpected answer: {:?}", other),
    }
}

fn stake_of(ledger: &Ledger, address: &str) -> voting::msg::TokenStakeResponse {
    match query(ledger, QueryMsg::TokenStake { address: address.to_string() }).unwrap() {
        QueryResponse::TokenStake(value) => value,
        other => panic!("unexpected answer: {:?}", other),
    }
}

#[test]
fn proper_initialization() {
    let mut deps = Ledger::new();

    let msg = InstantiateMsg { denom: String::from(VOTING_TOKEN) };
    let info = mock_info("creator", &coins(1000, "earth"));

    let res = instantiate(&mut deps, info, msg).unwrap();
    assert_eq!(0, res.messages.len());
}

#[test]
fn vote() {
    const BASE: u128 = 1000;
    let mut deps = Ledger::new();

    let msg = InstantiateMsg { denom: String::from(VOTING_TOKEN) };
    let info = mock_info("creator", &coins(2 * BASE, &msg.denom));
    let _res = instantiate(&mut deps, info, msg.clone()).unwrap();

    let info = mock_info(TEST_VOTER, &coins(1 * BASE, &msg.denom));
    let yes_vote = true;
    let proposal_id = 1u128;
    let msg_execute = ExecuteMsg::Vote { proposal_id, yes_vote };
    let _res = execute(&mut deps, info, msg_execute).unwrap();

    let value = proposal_of(&deps, 1u128);
    assert_eq!(1u128, value.yes_votes);
    assert_eq!(0u128, value.no_votes);

    let token_stake = stake_of(&deps, TEST_VOTER);
    assert_eq!(1 * BASE, token_stake.token_balance);

    let info = mock_info(TEST_VOTER_2, &coins(1 * BASE, &msg.denom));

    let yes_vote = true;
    let proposal_id = 1u128;
    let msg_execute = ExecuteMsg::Vote { proposal_id, yes_vote };

    let _res = execute(&mut deps, info, msg_execute).unwrap();

    let value = proposal_of(&deps, 1u128);
    assert_eq!(2u128, value.yes_votes);
    assert_eq!(0u128, value.no_votes);

    let token_stake = stake_of(&deps, TEST_VOTER_2);
    assert_eq!(1 * BASE, token_stake.token_balance);
    println!("Success 2");

    let yes_vote = false;
    let proposal_id = 1u128;
    let msg_execute = ExecuteMsg::Vote { proposal_id, yes_vote };

    let info = mock_info(TEST_VOTER_2, &coins(4 * BASE, &msg.denom));
    let _res = execute(&mut deps, info, msg_execute).unwrap();

    let value = proposal_of(&deps, 1u128);
    assert_eq!(2u128, value.yes_votes);
    assert_eq!(1u128, value.no_votes);

    let token_stake = stake_of(&deps, TEST_VOTER_2);
    assert_eq!(5 * BASE, token_stake.token_balance);

    let yes_vote = false;
    let proposal_id = 1u128;
    let msg_execute = ExecuteMsg::Vote { proposal_id, yes_vote };

    let info = mock_info(TEST_VOTER_2, &coins(9 * BASE, &msg.denom));
    let _res = execute(&mut deps, info, msg_execute).unwrap();

    let value = proposal_of(&deps, 1u128);
    assert_eq!(2u128, value.yes_votes);
    assert_eq!(2u128, value.no_votes);

    let token_stake = stake_of(&deps, TEST_VOTER_2);
    assert_eq!(14 * BASE, token_stake.token_balance);

    let yes_vote = false;
    let proposal_id = 2u128;
    let msg_execute = ExecuteMsg::Vote { proposal_id, yes_vote };

    let info = mock_info(TEST_VOTER_3, &coins(1 * BASE, &msg.denom));
    let _res = execute(&mut deps, info, msg_execute).unwrap();

    let value = proposal_of(&deps, 2u128);
    assert_eq!(0u128, value.yes_votes);
    assert_eq!(1u128, value.no_votes);

    let token_stake = stake_of(&deps, TEST_VOTER_3);
    assert_eq!(1 * BASE, token_stake.token_balance);

    let yes_vote = true;
    let proposal_id = 2u128;
    let msg_execute = ExecuteMsg::Vote { proposal_id, yes_vote };

    let info = mock_info(TEST_VOTER_3, &coins(4 * BASE, &msg.denom));
    let _res = execute(&mut deps, info, msg_execute).unwrap();

    let value = proposal_of(&deps, 2u128);
    assert_eq!(1u128, value.yes_votes);
    assert_eq!(1u128, value.no_votes);

    let token_stake = stake_of(&deps, TEST_VOTER_3);
    assert_eq!(5 * BASE, token_stake.token_balance);
}

#[test]
fn end_vote_passed() {
    let mut deps = Ledger::new();

    const BASE: u128 = 1000;
    let msg = InstantiateMsg { denom: String::from(VOTING_TOKEN) };
    let owner_info = mock_info("creator", &coins(1 * BASE, &msg.denom));
    let _res = instantiate(&mut deps, owner_info.clone(), msg.clone()).unwrap();

    let voter_info = mock_info("anyone", &coins(1 * BASE, &msg.denom));

    let yes_vote = true;
    let proposal_id = 1u128;
    let msg_execute = ExecuteMsg::Vote { proposal_id, yes_vote };
    let _res = execute(&mut deps, voter_info, msg_execute).unwrap();

    let msg_end_vote = ExecuteMsg::EndVote { proposal_id };

    let _res = execute(&mut deps, owner_info, msg_end_vote).unwrap();

    let value = proposal_of(&deps, 1u128);

    assert_eq!(value.status, ProposalStatus::Passed);
}

#[test]
fn end_vote_rejected() {
    let mut deps = Ledger::new();

    const BASE: u128 = 1000;
    let msg = InstantiateMsg { denom: String::from(VOTING_TOKEN) };
    let owner_info = mock_info("creator", &coins(1 * BASE, &msg.denom));
    let _res = instantiate(&mut deps, owner_info.clone(), msg.clone()).unwrap();

    let voter_info = mock_info("anyone", &coins(1 * BASE, &msg.denom));

    let yes_vote = false;
    let proposal_id = 1u128;
    let msg_execute = ExecuteMsg::Vote { proposal_id, yes_vote };
    let _res = execute(&mut deps, voter_info, msg_execute).unwrap();

    let msg_end_vote = ExecuteMsg::EndVote { proposal_id };

    let _res = execute(&mut deps, owner_info, msg_end_vote).unwrap();

    let value = proposal_of(&deps, 1u128);

    assert_eq!(value.status, ProposalStatus::Rejected);
}
