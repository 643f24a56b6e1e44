//! Records as they are read, and the transactions they stand for.

use crate::amount::Amount;
pub use crate::decimal::DECIMAL_PRECISION;
use crate::decimal::{decimal_from_str_exact, exact_decimal};
use crate::error::RecordError;
use vstd::prelude::*;

verus! {

/// Transaction information read from the input.
#[derive(Debug, Clone)]
pub struct TransactionRecord {
    pub transaction_type: String,
    pub client: u16,
    pub tx: u32,
    pub amount: Option<String>,
}

/// Transaction type.
#[derive(Debug, Clone, Copy)]
pub enum TransactionType {
    Deposit { client: u16, tx: u32, amount: Amount },
    Withdrawal { client: u16, tx: u32, amount: Amount },
    Dispute { client: u16, tx: u32 },
    Resolve { client: u16, tx: u32 },
    Chargeback { client: u16, tx: u32 },
    Unknown,
}

/// The amount that a text denotes: no number where it denotes no decimal,
/// else what the decimal's parts make.
pub open spec fn parsed_amount(text: Seq<char>) -> Result<Amount, RecordError> {
    match exact_decimal(text) {
        None => Err(RecordError::InvalidNumber),
        Some((mantissa, scale)) => Amount::parts_checked(mantissa, scale),
    }
}

/// The amount of a deposit or withdrawal record.
pub open spec fn required_amount(amount: Option<String>) -> Result<Amount, RecordError> {
    match amount {
        None => Err(RecordError::MissingAmount),
        Some(text) => parsed_amount(text@),
    }
}

/// The transaction of the kind that `kind` names, for the given client and
/// id.  A deposit or a withdrawal takes the amount, and fails as the amount
/// does; the other kinds do not look at it.  A kind that is none of the five
/// gives `Unknown`.
pub open spec fn of_kind(
    kind: Seq<char>,
    client: u16,
    tx: u32,
    amount: Result<Amount, RecordError>,
) -> Result<TransactionType, RecordError> {
    if kind == "deposit"@ {
        match amount {
            Ok(amount) => Ok(TransactionType::Deposit { client, tx, amount }),
            Err(e) => Err(e),
        }
    } else if kind == "withdrawal"@ {
        match amount {
            Ok(amount) => Ok(TransactionType::Withdrawal { client, tx, amount }),
            Err(e) => Err(e),
        }
    } else if kind == "dispute"@ {
        Ok(TransactionType::Dispute { client, tx })
    } else if kind == "resolve"@ {
        Ok(TransactionType::Resolve { client, tx })
    } else if kind == "chargeback"@ {
        Ok(TransactionType::Chargeback { client, tx })
    } else {
        Ok(TransactionType::Unknown)
    }
}

/// The transaction that a record stands for.
pub open spec fn classified(record: TransactionRecord) -> Result<TransactionType, RecordError> {
    of_kind(record.transaction_type@, record.client, record.tx, required_amount(record.amount))
}

impl TransactionType {
    /// The client that the transaction names, as contracts see it.
    pub open spec fn spec_client_id(&self) -> Option<u16> {
        match *self {
            TransactionType::Deposit { client, .. } => Some(client),
            TransactionType::Withdrawal { client, .. } => Some(client),
            TransactionType::Dispute { client, .. } => Some(client),
            TransactionType::Resolve { client, .. } => Some(client),
            TransactionType::Chargeback { client, .. } => Some(client),
            TransactionType::Unknown => None,
        }
    }

    /// The client that the transaction names, if it names one.
    #[verifier::when_used_as_spec(spec_client_id)]
    pub fn client_id(&self) -> (r: Option<u16>)
        ensures
            r == self.client_id(),
    {
        match self {
            TransactionType::Deposit { client, .. } => Some(*client),
            TransactionType::Withdrawal { client, .. } => Some(*client),
            TransactionType::Dispute { client, .. } => Some(*client),
            TransactionType::Resolve { client, .. } => Some(*client),
            TransactionType::Chargeback { client, .. } => Some(*client),
            TransactionType::Unknown => None,
        }
    }

    /// The transaction of the kind that `kind` names.  `amount` is the amount
    /// that came with it, or why there is none: a deposit or a withdrawal
    /// needs it, the other kinds do not look at it.
    pub fn of_kind(kind: &str, client: u16, tx: u32, amount: Result<Amount, RecordError>) -> (r:
        Result<Self, RecordError>)
        ensures
            r == of_kind(kind@, client, tx, amount),
    {
        if is_kind(kind, "deposit") {
            match amount {
                Ok(amount) => Ok(TransactionType::Deposit { client, tx, amount }),
                Err(e) => Err(e),
            }
        } else if is_kind(kind, "withdrawal") {
            match amount {
                Ok(amount) => Ok(TransactionType::Withdrawal { client, tx, amount }),
                Err(e) => Err(e),
            }
        } else if is_kind(kind, "dispute") {
            Ok(TransactionType::Dispute { client, tx })
        } else if is_kind(kind, "resolve") {
            Ok(TransactionType::Resolve { client, tx })
        } else if is_kind(kind, "chargeback") {
            Ok(TransactionType::Chargeback { client, tx })
        } else {
            Ok(TransactionType::Unknown)
        }
    }

    /// Turns a record into the transaction it stands for.  A deposit or a
    /// withdrawal needs an amount of at most four fractional digits; a type
    /// that is none of the five known ones gives `Unknown`.
    pub fn from_transaction_record(record: TransactionRecord) -> (r: Result<Self, RecordError>)
        ensures
            r == classified(record),
    {
        let amount = amount_of_record(record.amount);
        Self::of_kind(record.transaction_type.as_str(), record.client, record.tx, amount)
    }
}

/// Whether a record's type is the one named.
fn is_kind(kind: &str, name: &str) -> (r: bool)
    ensures
        r == (kind@ == name@),
{
    kind.to_owned() == name.to_owned()
}

/// The amount that a deposit or withdrawal record carries.
fn amount_of_record(amount: Option<String>) -> (r: Result<Amount, RecordError>)
    ensures
        r == required_amount(amount),
{
    match amount {
        None => Err(RecordError::MissingAmount),
        Some(text) => parse_with_decimal_precision(text),
    }
}

/// Reads an amount from decimal text.  Text that is no decimal is rejected as
/// `InvalidNumber`, a decimal with more than four fractional digits as
/// `InvalidPrecision`.
pub fn parse_with_decimal_precision(amount: String) -> (r: Result<Amount, RecordError>)
    ensures
        r == parsed_amount(amount@),
{
    match decimal_from_str_exact(amount.as_str()) {
        None => Err(RecordError::InvalidNumber),
        Some((mantissa, scale)) => Amount::from_parts(mantissa, scale),
    }
}

} // verus!
