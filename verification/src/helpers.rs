//! Checks on the funds attached to a request.

use crate::error::{ContractError, Failure};
use crate::types::{coins_view, Coin, CoinView};
use vstd::prelude::*;

verus! {

/// Some coin in `sent` has exactly this denomination and exactly this amount.
pub open spec fn holds_exact_coin(sent: Seq<CoinView>, denom: Seq<char>, amount: u128) -> bool {
    exists|i: int|
        0 <= i < sent.len() && (#[trigger] sent[i]).denom == denom && sent[i].amount == amount
}

/// `sent` meets `required`: nothing is asked for, or zero tokens are asked
/// for, or `sent` holds a coin equal to the one asked for.
pub open spec fn funds_suffice(sent: Seq<CoinView>, required: Option<CoinView>) -> bool {
    match required {
        Some(coin) => coin.amount > 0 ==> holds_exact_coin(sent, coin.denom, coin.amount),
        None => true,
    }
}

/// The view of an optional coin.
pub open spec fn optional_coin_view(coin: Option<Coin>) -> Option<CoinView> {
    match coin {
        Some(coin) => Some(coin@),
        None => None,
    }
}

/// Accepts `sent` when it meets `required`, and refuses it with
/// `InsufficientFundsSent` otherwise. A larger amount than the required one
/// is refused like a smaller one.
pub fn validate_sent_sufficient_coin(sent: &[Coin], required: Option<Coin>) -> (outcome: Result<
    (),
    ContractError,
>)
    ensures
        funds_suffice(coins_view(sent@), optional_coin_view(required)) ==> outcome is Ok,
        !funds_suffice(coins_view(sent@), optional_coin_view(required)) ==> (outcome matches Err(
            error,
        ) && error@ == Failure::InsufficientFundsSent),
{
    if let Some(required_coin) = required {
        if required_coin.amount > 0 {
            let ghost view = coins_view(sent@);
            let mut i: usize = 0;
            while i < sent.len()
                invariant
                    i <= sent.len(),
                    view == coins_view(sent@),
                    required == Some(required_coin),
                    required_coin.amount > 0,
                    forall|j: int|
                        0 <= j < i ==> !((#[trigger] view[j]).denom == required_coin.denom@
                            && view[j].amount == required_coin.amount),
                decreases sent.len() - i,
            {
                if sent[i].denom == required_coin.denom && sent[i].amount == required_coin.amount {
                    assert(view[i as int].denom == required_coin.denom@ && view[i as int].amount
                        == required_coin.amount);
                    return Ok(());
                }
                i += 1;
            }
            return Err(ContractError::InsufficientFundsSent {  });
        }
    }
    Ok(())
}

/// What [`extract_budget_coin`] answers for `sent` and `denom`.
pub open spec fn budget_coin(sent: Seq<CoinView>, denom: Seq<char>) -> Result<CoinView, Failure> {
    if sent.len() != 1 {
        Err(Failure::WrongCoinSent)
    } else if sent[0].denom != denom {
        Err(Failure::WrongFundCoin { expected: denom, got: sent[0].denom })
    } else {
        Ok(sent[0])
    }
}

/// The view of the outcome of [`extract_budget_coin`].
pub open spec fn budget_outcome_view(outcome: Result<Coin, ContractError>) -> Result<
    CoinView,
    Failure,
> {
    match outcome {
        Ok(coin) => Ok(coin@),
        Err(error) => Err(error@),
    }
}

/// Hands out the one coin in `sent_funds` when it is of denomination `denom`.
/// Any other number of coins is refused with `WrongCoinSent`, another
/// denomination with `WrongFundCoin`, which names both denominations.
pub fn extract_budget_coin(sent_funds: &[Coin], denom: &str) -> (outcome: Result<
    Coin,
    ContractError,
>)
    ensures
        budget_outcome_view(outcome) == budget_coin(coins_view(sent_funds@), denom@),
{
    if sent_funds.len() != 1 {
        return Err(ContractError::WrongCoinSent {  });
    }
    let expected = denom.to_owned();
    if sent_funds[0].denom != expected {
        return Err(ContractError::WrongFundCoin { expected, got: sent_funds[0].denom.clone() });
    }
    Ok(sent_funds[0].duplicate())
}

} // verus!
