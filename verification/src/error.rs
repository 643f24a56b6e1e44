//! What can go wrong with a record or with an operation on an account.

use vstd::prelude::*;

verus! {

/// Why a record could not be turned into a transaction.
#[derive(Clone, Copy, Debug, PartialEq, Eq, Structural)]
pub enum RecordError {
    /// The amount is not a well-formed decimal.
    InvalidNumber,
    /// The amount has more fractional digits than an amount may have.
    InvalidPrecision,
    /// A deposit or withdrawal came without an amount.
    MissingAmount,
}

impl RecordError {
    /// The error in words, as contracts see it.
    pub open spec fn spec_message(&self) -> &'static str {
        match *self {
            RecordError::InvalidNumber => "Invalid decimal",
            RecordError::InvalidPrecision => "Invalid decimal precision",
            RecordError::MissingAmount => "Missing amount",
        }
    }

    /// The error in words.
    #[verifier::when_used_as_spec(spec_message)]
    pub fn message(&self) -> (r: &'static str)
        ensures
            r == self.message(),
    {
        match *self {
            RecordError::InvalidNumber => "Invalid decimal",
            RecordError::InvalidPrecision => "Invalid decimal precision",
            RecordError::MissingAmount => "Missing amount",
        }
    }
}

/// Why an operation on an account was rejected.
#[derive(Clone, Copy, Debug, PartialEq, Eq, Structural)]
pub enum AccountError {
    /// The transaction id was settled on this account before.
    DuplicateTransaction,
    /// The amount of a deposit is negative.
    InvalidAmount,
    /// The withdrawal asks for more than is available.
    InsufficientFunds,
    /// No settled transaction has this id.
    TransactionNotFound,
    /// The transaction is under dispute already.
    AlreadyDisputed,
    /// The transaction is not under dispute.
    NotDisputed,
}

impl AccountError {
    /// The error in words, as contracts see it.
    pub open spec fn spec_message(&self) -> &'static str {
        match *self {
            AccountError::DuplicateTransaction => "Transaction already processed",
            AccountError::InvalidAmount => "Negative amount",
            AccountError::InsufficientFunds => "Insufficient funds",
            AccountError::TransactionNotFound => {
                "Transaction id not found in processed transactions"
            },
            AccountError::AlreadyDisputed => "Transaction already disputed",
            AccountError::NotDisputed => "Transaction id has not been disputed",
        }
    }

    /// The error in words.
    #[verifier::when_used_as_spec(spec_message)]
    pub fn message(&self) -> (r: &'static str)
        ensures
            r == self.message(),
    {
        match *self {
            AccountError::DuplicateTransaction => "Transaction already processed",
            AccountError::InvalidAmount => "Negative amount",
            AccountError::InsufficientFunds => "Insufficient funds",
            AccountError::TransactionNotFound => {
                "Transaction id not found in processed transactions"
            },
            AccountError::AlreadyDisputed => "Transaction already disputed",
            AccountError::NotDisputed => "Transaction id has not been disputed",
        }
    }
}

} // verus!
