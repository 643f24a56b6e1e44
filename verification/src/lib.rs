//! A ledger of client accounts driven by a stream of transactions.
//!
//! Deposits and withdrawals move funds, disputes hold the funds of an earlier
//! deposit, and a dispute ends either in a resolve, which releases them, or in
//! a chargeback, which takes them back and locks the account.  Every rule is
//! stated over a mathematical model of the account and proved of the code.

pub mod account;
pub mod amount;
pub mod client;
pub mod decimal;
pub mod engine;
pub mod error;
pub mod types;

pub use amount::Amount;
pub use client::{Balances, Client};
pub use decimal::DECIMAL_PRECISION;
pub use engine::TransactionsEngine;
pub use error::{AccountError, RecordError};
pub use types::{parse_with_decimal_precision, TransactionRecord, TransactionType};
