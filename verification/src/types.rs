//! The caller's side of a request: who sent it and which funds came with it.

use vstd::prelude::*;

verus! {

/// An amount of one denomination of tokens.
#[derive(Clone, Debug, PartialEq, Eq)]
pub struct Coin {
    pub denom: String,
    pub amount: u128,
}

/// What a [`Coin`] stands for in contracts.
pub ghost struct CoinView {
    pub denom: Seq<char>,
    pub amount: u128,
}

impl View for Coin {
    type V = CoinView;

    open spec fn view(&self) -> CoinView {
        CoinView { denom: self.denom@, amount: self.amount }
    }
}

impl Coin {
    /// Makes a coin of `amount` tokens of `denom`.
    pub fn new(amount: u128, denom: &str) -> (coin: Coin)
        ensures
            coin@ == (CoinView { denom: denom@, amount }),
    {
        Coin { denom: denom.to_owned(), amount }
    }

    /// A second coin with the same denomination and amount.
    pub fn duplicate(&self) -> (coin: Coin)
        ensures
            coin@ == self@,
    {
        Coin { denom: self.denom.clone(), amount: self.amount }
    }
}

/// The views of the coins in `coins`, in the same order.
pub open spec fn coins_view(coins: Seq<Coin>) -> Seq<CoinView> {
    coins.map_values(|coin: Coin| coin@)
}

/// A one-element list of funds: `amount` tokens of `denom`.
pub fn coins(amount: u128, denom: &str) -> (funds: Vec<Coin>)
    ensures
        coins_view(funds@) == seq![CoinView { denom: denom@, amount }],
{
    let mut funds: Vec<Coin> = Vec::new();
    funds.push(Coin::new(amount, denom));
    funds
}

/// The identity of the caller and the funds attached to the call.
#[derive(Clone, Debug, PartialEq, Eq)]
pub struct MessageInfo {
    pub sender: String,
    pub funds: Vec<Coin>,
}

/// What a [`MessageInfo`] stands for in contracts.
pub ghost struct MessageInfoView {
    pub sender: Seq<char>,
    pub funds: Seq<CoinView>,
}

impl View for MessageInfo {
    type V = MessageInfoView;

    open spec fn view(&self) -> MessageInfoView {
        MessageInfoView { sender: self.sender@, funds: coins_view(self.funds@) }
    }
}

} // verus!
