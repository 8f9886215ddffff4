use vstd::prelude::*;

verus! {

/// The error of the chain's standard library that this contract raises itself:
/// a generic error carrying a message.
#[derive(Clone, Debug, PartialEq, Eq)]
pub enum StdError {
    GenericErr { msg: String },
}

/// Errors about the funds that come with a message.
#[derive(Clone, Debug, PartialEq, Eq)]
pub enum PaymentError {
    MissingDenom(String),
    ExtraDenom(String),
    MultipleDenoms {},
    NoFunds {},
    NonPayable {},
}

/// Every way in which a call of the contract can be refused.
#[derive(Clone, Debug, PartialEq, Eq)]
pub enum ContractError {
    Std(StdError),
    Unauthorized {},
    Payment(PaymentError),
    ExceedMintableBlock {},
    ExceedMaximumMintableAmount {},
    PoolNotExist {},
    DoublingAssets {},
    InsufficientFunds { asked_amount: u128, available_amount: u128 },
}

/// A generic error with the given message.
pub fn generic_err(msg: String) -> (e: StdError)
    ensures
        e matches StdError::GenericErr { msg: m } && m@ == msg@,
{
    StdError::GenericErr { msg }
}

} // verus!
