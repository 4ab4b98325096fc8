//! The ways in which an operation of the engine can fail.

use cosmwasm_std::StdError;
use vstd::prelude::*;
use vstd::std_specs::convert::FromSpecImpl;

verus! {

/// The error type of the host's standard library, carried through unread.
#[verifier::external_type_specification]
#[verifier::external_body]
pub struct ExStdError(StdError);

/// Why an operation was refused. No refused operation changes any record.
#[derive(Debug)]
pub enum ContractError {
    /// A failure below the engine, such as configuration that was never stored.
    Std(StdError),
    /// The caller is not the owner.
    Unauthorized {},
    /// A failure that a host built on the engine describes in its own words.
    CustomError { val: String },
    /// The attached funds do not hold the exact stake in the voting denomination.
    InsufficientFundsSent {},
    /// A stake, a tally, a counter or a balance left its integer range.
    OverflowError {},
    /// No such proposal, or the voter holds a record without an entry for it.
    ProposalNotFound {},
    /// The proposal was already closed.
    ProposalNotInProgress {},
    /// The proposal is not under examination. No operation of the engine gives this.
    ProposalNotInReview {},
    /// Not exactly one coin was attached.
    WrongCoinSent {},
    /// The one coin attached has another denomination than the expected one.
    WrongFundCoin { expected: String, got: String },
    /// A funding round lacks its budget. No operation of the engine gives this.
    CLRConstrainRequired {},
}

/// What a [`ContractError`] stands for in contracts: its variant, with the
/// text it carries. A host error is not looked into.
pub ghost enum Failure {
    Std,
    Unauthorized,
    CustomError { val: Seq<char> },
    InsufficientFundsSent,
    OverflowError,
    ProposalNotFound,
    ProposalNotInProgress,
    ProposalNotInReview,
    WrongCoinSent,
    WrongFundCoin { expected: Seq<char>, got: Seq<char> },
    CLRConstrainRequired,
}

impl View for ContractError {
    type V = Failure;

    open spec fn view(&self) -> Failure {
        match self {
            ContractError::Std(_) => Failure::Std,
            ContractError::Unauthorized {  } => Failure::Unauthorized,
            ContractError::CustomError { val } => Failure::CustomError { val: val@ },
            ContractError::InsufficientFundsSent {  } => Failure::InsufficientFundsSent,
            ContractError::OverflowError {  } => Failure::OverflowError,
            ContractError::ProposalNotFound {  } => Failure::ProposalNotFound,
            ContractError::ProposalNotInProgress {  } => Failure::ProposalNotInProgress,
            ContractError::ProposalNotInReview {  } => Failure::ProposalNotInReview,
            ContractError::WrongCoinSent {  } => Failure::WrongCoinSent,
            ContractError::WrongFundCoin { expected, got } => Failure::WrongFundCoin {
                expected: expected@,
                got: got@,
            },
            ContractError::CLRConstrainRequired {  } => Failure::CLRConstrainRequired,
        }
    }
}

impl From<StdError> for ContractError {
    fn from(source: StdError) -> (error: ContractError) {
        ContractError::Std(source)
    }
}

impl FromSpecImpl<StdError> for ContractError {
    open spec fn obeys_from_spec() -> bool {
        true
    }

    open spec fn from_spec(source: StdError) -> ContractError {
        ContractError::Std(source)
    }
}

/// Calls `StdError::not_found`, which builds the host's "not found" error
/// for a value of the named kind. Nothing is claimed of the result.
#[verifier::external_body]
fn not_found(kind: &str) -> (error: StdError) {
    StdError::not_found(kind)
}

/// The error of an operation on a ledger that was never initialised: the
/// host's "not found" error for the configuration.
pub(crate) fn state_not_found() -> (error: ContractError)
    ensures
        error@ == Failure::Std,
{
    ContractError::from(not_found("voting::state::State"))
}

} // verus!
