//! The account as a mathematical object: its state, the five operations as
//! functions from state to state, and what holds of them.
//!
//! Balances are whole numbers of ten-thousandths (see `Amount::units`), so
//! that the rules are stated over integers and hold without any bound.

use crate::amount::Amount;
use crate::error::AccountError;
use crate::types::TransactionType;
use vstd::prelude::*;

verus! {

/// The state of one client's account.
pub struct AccountModel {
    /// The client the account belongs to.
    pub client: u16,
    /// Funds the client can withdraw.
    pub available: int,
    /// Funds frozen by open disputes.
    pub held: int,
    /// All funds of the account.
    pub total: int,
    /// Whether a chargeback has locked the account.
    pub locked: bool,
    /// The deposits and withdrawals that were applied, by transaction id.
    pub settled: Map<u32, TransactionType>,
    /// The ids of the transactions that are under dispute.
    pub disputed: Set<u32>,
}

impl AccountModel {
    /// The account of a client that no transaction has touched.
    pub open spec fn fresh(client: u16) -> AccountModel {
        AccountModel {
            client,
            available: 0,
            held: 0,
            total: 0,
            locked: false,
            settled: Map::empty(),
            disputed: Set::empty(),
        }
    }

    /// The total is what is available and what is held together.
    pub open spec fn balanced(self) -> bool {
        self.total == self.available + self.held
    }

    /// Whether `entry` may stand under `tx` among the settled transactions:
    /// it is a deposit or a withdrawal of this client and of that id, and a
    /// deposit is of an amount that is not negative.
    pub open spec fn may_settle(self, tx: u32, entry: TransactionType) -> bool {
        match entry {
            TransactionType::Deposit { client, tx: id, amount } => client == self.client && id == tx
                && amount.units() >= 0,
            TransactionType::Withdrawal { client, tx: id, .. } => client == self.client && id == tx,
            _ => false,
        }
    }

    /// What holds of every account that the operations produce: it is
    /// balanced, what is settled is a deposit or withdrawal filed under its
    /// own id, and what is disputed is a settled deposit.
    pub open spec fn consistent(self) -> bool {
        &&& self.balanced()
        &&& forall|tx: u32| #[trigger]
            self.settled.contains_key(tx) ==> self.may_settle(tx, self.settled[tx])
        &&& forall|tx: u32| #[trigger]
            self.disputed.contains(tx) ==> self.settled_deposit(tx) is Some
    }

    /// The amount of the deposit settled under `tx`, if a deposit is settled
    /// under it.
    pub open spec fn settled_deposit(self, tx: u32) -> Option<Amount> {
        if self.settled.contains_key(tx) {
            match self.settled[tx] {
                TransactionType::Deposit { amount, .. } => Some(amount),
                _ => None,
            }
        } else {
            None
        }
    }

    /// Deposit: rejected for an id that is settled already and for a negative
    /// amount; else the amount is added to what is available and to the
    /// total, and the deposit is settled under its id.
    pub open spec fn deposit(self, amount: Amount, tx: u32) -> Result<AccountModel, AccountError> {
        if self.settled.contains_key(tx) {
            Err(AccountError::DuplicateTransaction)
        } else if amount.units() < 0 {
            Err(AccountError::InvalidAmount)
        } else {
            Ok(
                AccountModel {
                    available: self.available + amount.units(),
                    total: self.total + amount.units(),
                    settled: self.settled.insert(
                        tx,
                        TransactionType::Deposit { client: self.client, tx, amount },
                    ),
                    ..self
                },
            )
        }
    }

    /// Withdrawal: rejected for an id that is settled already and for more
    /// than is available; else the amount is taken from what is available
    /// and from the total, and the withdrawal is settled under its id.  The
    /// sign of the amount is not looked at: a negative one is never more
    /// than is available unless available is lower still, and taking it
    /// raises both balances.
    pub open spec fn withdrawal(self, amount: Amount, tx: u32) -> Result<
        AccountModel,
        AccountError,
    > {
        if self.settled.contains_key(tx) {
            Err(AccountError::DuplicateTransaction)
        } else if self.available < amount.units() {
            Err(AccountError::InsufficientFunds)
        } else {
            Ok(
                AccountModel {
                    available: self.available - amount.units(),
                    total: self.total - amount.units(),
                    settled: self.settled.insert(
                        tx,
                        TransactionType::Withdrawal { client: self.client, tx, amount },
                    ),
                    ..self
                },
            )
        }
    }

    /// Dispute: rejected for an id that is under dispute already and for one
    /// that is not settled.  For a settled deposit its amount moves from
    /// available to held and the id is put under dispute; for a settled
    /// withdrawal nothing changes.
    pub open spec fn dispute(self, tx: u32) -> Result<AccountModel, AccountError> {
        if self.disputed.contains(tx) {
            Err(AccountError::AlreadyDisputed)
        } else if !self.settled.contains_key(tx) {
            Err(AccountError::TransactionNotFound)
        } else {
            match self.settled_deposit(tx) {
                Some(amount) => Ok(
                    AccountModel {
                        available: self.available - amount.units(),
                        held: self.held + amount.units(),
                        disputed: self.disputed.insert(tx),
                        ..self
                    },
                ),
                None => Ok(self),
            }
        }
    }

    /// Resolve: rejected for an id that is not under dispute; else the
    /// dispute is closed, and the amount of the disputed deposit moves back
    /// from held to available.
    pub open spec fn resolve(self, tx: u32) -> Result<AccountModel, AccountError> {
        if !self.disputed.contains(tx) {
            Err(AccountError::NotDisputed)
        } else {
            match self.settled_deposit(tx) {
                Some(amount) => Ok(
                    AccountModel {
                        available: self.available + amount.units(),
                        held: self.held - amount.units(),
                        disputed: self.disputed.remove(tx),
                        ..self
                    },
                ),
                None => Ok(AccountModel { disputed: self.disputed.remove(tx), ..self }),
            }
        }
    }

    /// Chargeback: rejected for an id that is not under dispute; else the
    /// dispute is closed, the amount of the disputed deposit leaves held and
    /// the total, and the account is locked.
    pub open spec fn chargeback(self, tx: u32) -> Result<AccountModel, AccountError> {
        if !self.disputed.contains(tx) {
            Err(AccountError::NotDisputed)
        } else {
            match self.settled_deposit(tx) {
                Some(amount) => Ok(
                    AccountModel {
                        held: self.held - amount.units(),
                        total: self.total - amount.units(),
                        locked: true,
                        disputed: self.disputed.remove(tx),
                        ..self
                    },
                ),
                None => Ok(AccountModel { disputed: self.disputed.remove(tx), ..self }),
            }
        }
    }

    /// The operation that a transaction asks for; an unknown one asks for
    /// none and leaves the account as it is.
    pub open spec fn apply(self, transaction: TransactionType) -> Result<
        AccountModel,
        AccountError,
    > {
        match transaction {
            TransactionType::Deposit { amount, tx, .. } => self.deposit(amount, tx),
            TransactionType::Withdrawal { amount, tx, .. } => self.withdrawal(amount, tx),
            TransactionType::Dispute { tx, .. } => self.dispute(tx),
            TransactionType::Resolve { tx, .. } => self.resolve(tx),
            TransactionType::Chargeback { tx, .. } => self.chargeback(tx),
            TransactionType::Unknown => Ok(self),
        }
    }
}

/// The accounts of a ledger, by client.
pub type LedgerModel = Map<u16, AccountModel>;

/// The account that a ledger has for a client: the one it holds, or a fresh
/// one where it holds none.
pub open spec fn account_of(ledger: LedgerModel, client: u16) -> AccountModel {
    if ledger.contains_key(client) {
        ledger[client]
    } else {
        AccountModel::fresh(client)
    }
}

/// What a ledger answers to a transaction: what the account of the client it
/// names answers to the operation it asks for.  An unknown transaction is
/// always accepted.
pub open spec fn outcome(ledger: LedgerModel, transaction: TransactionType) -> Result<
    (),
    AccountError,
> {
    match transaction.client_id() {
        Some(client) => match account_of(ledger, client).apply(transaction) {
            Ok(_) => Ok(()),
            Err(e) => Err(e),
        },
        None => Ok(()),
    }
}

/// The ledger after a transaction: the client it names has an account, which
/// has changed if the operation was accepted.  An unknown transaction leaves
/// the ledger as it is.
pub open spec fn processed(ledger: LedgerModel, transaction: TransactionType) -> LedgerModel {
    match transaction.client_id() {
        Some(client) => match account_of(ledger, client).apply(transaction) {
            Ok(next) => ledger.insert(client, next),
            Err(_) => ledger.insert(client, account_of(ledger, client)),
        },
        None => ledger,
    }
}

/// Whether every account of a ledger is consistent and filed under its own
/// client.
pub open spec fn ledger_consistent(ledger: LedgerModel) -> bool {
    forall|client: u16| #[trigger]
        ledger.contains_key(client) ==> ledger[client].consistent() && ledger[client].client
            == client
}

/// A fresh account is consistent.
pub proof fn lemma_fresh_consistent(client: u16)
    ensures
        AccountModel::fresh(client).consistent(),
        AccountModel::fresh(client).client == client,
{
}

/// Whatever operation succeeds on a balanced account leaves it balanced: the
/// total stays the sum of what is available and what is held.
pub proof fn lemma_balance_preserved(account: AccountModel, transaction: TransactionType)
    requires
        account.balanced(),
    ensures
        account.apply(transaction) matches Ok(next) ==> next.balanced(),
{
}

/// Whatever operation succeeds on an account that is consistent
/// gives one that is consistent, and belongs to the same client.
pub proof fn lemma_consistency_preserved(account: AccountModel, transaction: TransactionType)
    requires
        account.consistent(),
    ensures
        account.apply(transaction) matches Ok(next) ==> next.consistent() && next.client
            == account.client,
{
    match account.apply(transaction) {
        Ok(next) => {
            assert forall|tx: u32| #[trigger] next.settled.contains_key(tx) implies next.may_settle(
                tx,
                next.settled[tx],
            ) by {
                if account.settled.contains_key(tx) {
                    assert(account.may_settle(tx, account.settled[tx]));
                }
            }
            assert forall|tx: u32| #[trigger]
                next.disputed.contains(tx) implies next.settled_deposit(tx) is Some by {
                if account.disputed.contains(tx) {
                    assert(account.settled_deposit(tx) is Some);
                }
            }
        },
        Err(_) => {},
    }
}

/// A deposit or withdrawal under an id that is settled already is rejected as
/// a duplicate, whatever its amount.
pub proof fn lemma_settled_id_rejected(account: AccountModel, amount: Amount, tx: u32)
    requires
        account.settled.contains_key(tx),
    ensures
        account.deposit(amount, tx) == Err::<AccountModel, _>(AccountError::DuplicateTransaction),
        account.withdrawal(amount, tx) == Err::<AccountModel, _>(
            AccountError::DuplicateTransaction,
        ),
{
}

/// A deposit or withdrawal that succeeded settles its id, so that the same
/// one, applied again, is rejected as a duplicate.
pub proof fn lemma_settled_once(account: AccountModel, transaction: TransactionType)
    requires
        transaction is Deposit || transaction is Withdrawal,
    ensures
        account.apply(transaction) matches Ok(next) ==> next.apply(transaction) == Err::<
            AccountModel,
            _,
        >(AccountError::DuplicateTransaction),
{
}

/// A dispute of an id that no settled transaction has is rejected as not
/// found, on every account that is consistent.
pub proof fn lemma_unknown_dispute_rejected(account: AccountModel, tx: u32)
    requires
        account.consistent(),
        !account.settled.contains_key(tx),
    ensures
        account.dispute(tx) == Err::<AccountModel, _>(AccountError::TransactionNotFound),
{
    if account.disputed.contains(tx) {
        assert(account.settled_deposit(tx) is Some);
    }
}

/// A resolve or chargeback of an id that is not under dispute is rejected.
pub proof fn lemma_undisputed_rejected(account: AccountModel, tx: u32)
    requires
        !account.disputed.contains(tx),
    ensures
        account.resolve(tx) == Err::<AccountModel, _>(AccountError::NotDisputed),
        account.chargeback(tx) == Err::<AccountModel, _>(AccountError::NotDisputed),
{
}

/// A dispute that is resolved leaves the balances as they were before it.
pub proof fn lemma_resolve_undoes_dispute(account: AccountModel, tx: u32)
    requires
        account.settled_deposit(tx) is Some,
        !account.disputed.contains(tx),
    ensures
        account.dispute(tx) matches Ok(disputed) && disputed.resolve(tx) matches Ok(resolved)
            && resolved.available == account.available && resolved.held == account.held
            && resolved.total == account.total && resolved.locked == account.locked
            && resolved.settled == account.settled && resolved.disputed == account.disputed,
{
    let disputed = account.dispute(tx)->Ok_0;
    assert(disputed.settled_deposit(tx) == account.settled_deposit(tx));
    let resolved = disputed.resolve(tx)->Ok_0;
    assert(resolved.disputed =~= account.disputed);
}

/// Processing a transaction keeps a ledger consistent: every account stays
/// balanced, with its settled and disputed transactions in order.
pub proof fn lemma_processed_consistent(ledger: LedgerModel, transaction: TransactionType)
    requires
        ledger_consistent(ledger),
    ensures
        ledger_consistent(processed(ledger, transaction)),
{
    match transaction.client_id() {
        Some(client) => {
            let account = account_of(ledger, client);
            lemma_fresh_consistent(client);
            lemma_consistency_preserved(account, transaction);
            let after = processed(ledger, transaction);
            assert forall|other: u16| #[trigger]
                after.contains_key(other) implies after[other].consistent() && after[other].client
                == other by {
                if other != client {
                    assert(ledger.contains_key(other));
                }
            }
        },
        None => {},
    }
}

/// A transaction touches no account but that of the client it names, and a
/// rejected one not even that: every client's account is then as it was.
pub proof fn lemma_processed_accounts(
    ledger: LedgerModel,
    transaction: TransactionType,
    client: u16,
)
    ensures
        transaction.client_id() != Some(client) || outcome(ledger, transaction) is Err
            ==> account_of(processed(ledger, transaction), client) == account_of(ledger, client),
        transaction.client_id() == Some(client) ==> match account_of(ledger, client).apply(
            transaction,
        ) {
            Ok(next) => account_of(processed(ledger, transaction), client) == next,
            Err(e) => outcome(ledger, transaction) == Err::<(), _>(e),
        },
{
}

} // verus!
