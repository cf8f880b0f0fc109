use vstd::prelude::*;

verus! {

/// Why the attached funds were not accepted.
#[derive(Clone, Debug, PartialEq, Eq)]
pub enum PaymentError {
    /// Nothing, or a zero amount, was sent.
    NoFunds,
    /// More than one coin was sent.
    MultipleDenoms,
    /// The single coin sent is not of the required denomination.
    MissingDenom(String),
}

#[derive(Clone, Debug, PartialEq, Eq)]
pub enum ContractError {
    /// A host storage or lookup failure, with its message.
    Std(String),
    Payment(PaymentError),
    /// The deployment-completion payload could not be decoded.
    ParseReplyError(String),
    Unauthorized(String),
    NoFundsSent,
    InvalidReplyId(u64),
    /// The release window has no length left to divide the balance over.
    DivideByZero,
}

} // verus!
