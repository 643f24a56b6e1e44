//! One client's account: balances, the transactions settled on it, and those
//! under dispute.

use crate::account::AccountModel;
use crate::amount::Amount;
use crate::decimal::decimal_text;
use crate::error::AccountError;
use crate::types::TransactionType;
use std::collections::{HashMap, HashSet};
use vstd::prelude::*;
use vstd::std_specs::hash::group_hash_axioms;

verus! {

broadcast use group_hash_axioms;

/// The three balances of an account, as they are written.
#[derive(Clone, Copy, Debug)]
pub struct Balances {
    /// Available amount
    pub available: Amount,
    /// Amount under dispute
    pub held: Amount,
    /// Total funds
    pub total: Amount,
}

impl Balances {
    /// Three times zero, written without fractional digits.
    pub open spec fn zero() -> Balances {
        Balances {
            available: Amount::of_parts(0, 0),
            held: Amount::of_parts(0, 0),
            total: Amount::of_parts(0, 0),
        }
    }

    /// Whether the operation that `transaction` asks of `account` keeps
    /// these balances exact: where the operation is accepted, the sum and
    /// the difference that it asks for can be written without rounding.
    pub open spec fn fits(self, account: AccountModel, transaction: TransactionType) -> bool {
        account.apply(transaction) is Ok ==> match transaction {
            TransactionType::Deposit { amount, .. } => self.available.adds_exactly(amount)
                && self.total.adds_exactly(amount),
            TransactionType::Withdrawal { amount, .. } => self.available.subtracts_exactly(amount)
                && self.total.subtracts_exactly(amount),
            TransactionType::Dispute { tx, .. } => match account.settled_deposit(tx) {
                Some(amount) => self.available.subtracts_exactly(amount) && self.held.adds_exactly(
                    amount,
                ),
                None => true,
            },
            TransactionType::Resolve { tx, .. } => match account.settled_deposit(tx) {
                Some(amount) => self.held.subtracts_exactly(amount) && self.available.adds_exactly(
                    amount,
                ),
                None => true,
            },
            TransactionType::Chargeback { tx, .. } => match account.settled_deposit(tx) {
                Some(amount) => self.held.subtracts_exactly(amount) && self.total.subtracts_exactly(
                    amount,
                ),
                None => true,
            },
            TransactionType::Unknown => true,
        }
    }

    /// Whether these are the balances `before` once the operation that
    /// `transaction` asks of `account` is done, digit for digit: unchanged
    /// where it is rejected, else each the sum or difference that the
    /// operation asks for.
    pub open spec fn follows(
        self,
        before: Balances,
        account: AccountModel,
        transaction: TransactionType,
    ) -> bool {
        if account.apply(transaction) is Ok {
            match transaction {
                TransactionType::Deposit { amount, .. } => {
                    &&& self.available.is_sum_of(before.available, amount)
                    &&& self.held == before.held
                    &&& self.total.is_sum_of(before.total, amount)
                },
                TransactionType::Withdrawal { amount, .. } => {
                    &&& self.available.is_difference_of(before.available, amount)
                    &&& self.held == before.held
                    &&& self.total.is_difference_of(before.total, amount)
                },
                TransactionType::Dispute { tx, .. } => match account.settled_deposit(tx) {
                    Some(amount) => {
                        &&& self.available.is_difference_of(before.available, amount)
                        &&& self.held.is_sum_of(before.held, amount)
                        &&& self.total == before.total
                    },
                    None => self == before,
                },
                TransactionType::Resolve { tx, .. } => match account.settled_deposit(tx) {
                    Some(amount) => {
                        &&& self.available.is_sum_of(before.available, amount)
                        &&& self.held.is_difference_of(before.held, amount)
                        &&& self.total == before.total
                    },
                    None => self == before,
                },
                TransactionType::Chargeback { tx, .. } => match account.settled_deposit(tx) {
                    Some(amount) => {
                        &&& self.available == before.available
                        &&& self.held.is_difference_of(before.held, amount)
                        &&& self.total.is_difference_of(before.total, amount)
                    },
                    None => self == before,
                },
                TransactionType::Unknown => self == before,
            }
        } else {
            self == before
        }
    }
}

/// All the information kept for a client account.
#[derive(Debug)]
pub struct Client {
    /// Client ID
    client: u16,
    /// Available amount
    available: Amount,
    /// Amount under dispute
    held: Amount,
    /// Total funds
    total: Amount,
    /// Account state
    locked: bool,
    /// Deposits and withdrawals that were applied
    processed_transactions: HashMap<u32, TransactionType>,
    /// Transaction ids that are under dispute
    disputed_transactions: HashSet<u32>,
}

impl View for Client {
    type V = AccountModel;

    open spec fn view(&self) -> AccountModel {
        AccountModel {
            client: self.client(),
            available: self.available().units(),
            held: self.held().units(),
            total: self.total().units(),
            locked: self.locked(),
            settled: self.settled(),
            disputed: self.disputed(),
        }
    }
}

impl Client {
    /// The client id, as contracts see it.
    pub closed spec fn spec_client(&self) -> u16 {
        self.client
    }

    /// The available amount, as contracts see it.
    pub closed spec fn spec_available(&self) -> Amount {
        self.available
    }

    /// The held amount, as contracts see it.
    pub closed spec fn spec_held(&self) -> Amount {
        self.held
    }

    /// The total, as contracts see it.
    pub closed spec fn spec_total(&self) -> Amount {
        self.total
    }

    /// The lock, as contracts see it.
    pub closed spec fn spec_locked(&self) -> bool {
        self.locked
    }

    /// The settled transactions by id.
    pub closed spec fn settled(&self) -> Map<u32, TransactionType> {
        self.processed_transactions@
    }

    /// The ids under dispute.
    pub closed spec fn disputed(&self) -> Set<u32> {
        self.disputed_transactions@
    }

    /// Whether the account is in a state that the operations can have
    /// produced.  `new` gives such an account and every operation keeps it
    /// so; nothing else can change an account.
    pub open spec fn wf(&self) -> bool {
        self@.consistent()
    }

    /// The three balances as they are written.
    pub open spec fn spec_balances(&self) -> Balances {
        Balances { available: self.available(), held: self.held(), total: self.total() }
    }

    /// Whether the operation that `transaction` asks for keeps the balances
    /// exact.
    pub open spec fn fits(&self, transaction: TransactionType) -> bool {
        self.balances().fits(self@, transaction)
    }

    /// The deposit of `amount` under `tx` on this account.
    pub open spec fn deposit_of(&self, amount: Amount, tx: u32) -> TransactionType {
        TransactionType::Deposit { client: self.client(), tx, amount }
    }

    /// The withdrawal of `amount` under `tx` from this account.
    pub open spec fn withdrawal_of(&self, amount: Amount, tx: u32) -> TransactionType {
        TransactionType::Withdrawal { client: self.client(), tx, amount }
    }

    /// The dispute of `tx` on this account.
    pub open spec fn dispute_of(&self, tx: u32) -> TransactionType {
        TransactionType::Dispute { client: self.client(), tx }
    }

    /// The resolve of `tx` on this account.
    pub open spec fn resolve_of(&self, tx: u32) -> TransactionType {
        TransactionType::Resolve { client: self.client(), tx }
    }

    /// The chargeback of `tx` on this account.
    pub open spec fn chargeback_of(&self, tx: u32) -> TransactionType {
        TransactionType::Chargeback { client: self.client(), tx }
    }

    /// Client ID
    #[verifier::when_used_as_spec(spec_client)]
    pub fn client(&self) -> (r: u16)
        ensures
            r == self.client(),
    {
        self.client
    }

    /// Available amount
    #[verifier::when_used_as_spec(spec_available)]
    pub fn available(&self) -> (r: Amount)
        ensures
            r == self.available(),
    {
        self.available
    }

    /// Amount under dispute
    #[verifier::when_used_as_spec(spec_held)]
    pub fn held(&self) -> (r: Amount)
        ensures
            r == self.held(),
    {
        self.held
    }

    /// Total funds
    #[verifier::when_used_as_spec(spec_total)]
    pub fn total(&self) -> (r: Amount)
        ensures
            r == self.total(),
    {
        self.total
    }

    /// The three balances.
    #[verifier::when_used_as_spec(spec_balances)]
    pub fn balances(&self) -> (r: Balances)
        ensures
            r == self.balances(),
    {
        Balances { available: self.available, held: self.held, total: self.total }
    }

    /// Whether a chargeback has locked the account
    #[verifier::when_used_as_spec(spec_locked)]
    pub fn locked(&self) -> (r: bool)
        ensures
            r == self.locked(),
    {
        self.locked
    }

    /// The deposit or withdrawal settled under `tx`, if there is one.
    pub fn processed_transaction(&self, tx: u32) -> (r: Option<TransactionType>)
        ensures
            r == (if self.settled().contains_key(tx) {
                Some(self.settled()[tx])
            } else {
                None
            }),
    {
        match self.processed_transactions.get(&tx) {
            Some(transaction) => Some(*transaction),
            None => None,
        }
    }

    /// Whether `tx` is under dispute.
    pub fn is_disputed(&self, tx: u32) -> (r: bool)
        ensures
            r == self.disputed().contains(tx),
    {
        self.disputed_transactions.contains(&tx)
    }

    /// The account of `client`, with nothing on it.
    pub fn new(client: u16) -> (r: Self)
        ensures
            r@ == AccountModel::fresh(client),
            r.balances() == Balances::zero(),
            r.wf(),
    {
        let r = Client {
            client,
            available: Amount::zero(),
            held: Amount::zero(),
            total: Amount::zero(),
            locked: false,
            processed_transactions: HashMap::new(),
            disputed_transactions: HashSet::new(),
        };
        assert(r@ =~= AccountModel::fresh(client));
        r
    }

    /// Handles a deposit: puts `amount` on the account and settles it under
    /// `tx`.  An id that is settled already is rejected as a duplicate, a
    /// negative amount as invalid; a rejected deposit changes nothing.
    pub fn deposit(&mut self, amount: Amount, tx: u32) -> (res: Result<(), AccountError>)
        requires
            old(self).fits(old(self).deposit_of(amount, tx)),
        ensures
            old(self).wf() ==> final(self).wf(),
            old(self)@.balanced() ==> final(self)@.balanced(),
            final(self)@.held == old(self)@.held,
            match old(self)@.deposit(amount, tx) {
                Ok(next) => res == Ok::<(), AccountError>(()) && final(self)@ == next,
                Err(e) => res == Err::<(), AccountError>(e) && final(self)@ == old(self)@,
            },
            final(self).balances().follows(
                old(self).balances(),
                old(self)@,
                old(self).deposit_of(amount, tx),
            ),
    {
        if self.processed_transactions.contains_key(&tx) {
            return Err(AccountError::DuplicateTransaction);
        }
        if amount.is_negative() {
            return Err(AccountError::InvalidAmount);
        }
        self.available = self.available.plus(amount);
        self.total = self.total.plus(amount);
        self.processed_transactions.insert(
            tx,
            TransactionType::Deposit { client: self.client, tx, amount },
        );
        proof {
            if old(self).wf() {
                crate::account::lemma_consistency_preserved(
                    old(self)@,
                    TransactionType::Deposit { client: self.client, tx, amount },
                );
            }
        }
        Ok(())
    }

    /// Handles a withdrawal: takes `amount` from the account and settles it
    /// under `tx`.  An id that is settled already is rejected as a duplicate,
    /// more than is available for want of funds; a rejected withdrawal
    /// changes nothing.  The sign of the amount is not looked at.
    pub fn withdrawal(&mut self, amount: Amount, tx: u32) -> (res: Result<(), AccountError>)
        requires
            old(self).fits(old(self).withdrawal_of(amount, tx)),
        ensures
            old(self).wf() ==> final(self).wf(),
            old(self)@.balanced() ==> final(self)@.balanced(),
            final(self)@.held == old(self)@.held,
            match old(self)@.withdrawal(amount, tx) {
                Ok(next) => res == Ok::<(), AccountError>(()) && final(self)@ == next,
                Err(e) => res == Err::<(), AccountError>(e) && final(self)@ == old(self)@,
            },
            final(self).balances().follows(
                old(self).balances(),
                old(self)@,
                old(self).withdrawal_of(amount, tx),
            ),
    {
        if self.processed_transactions.contains_key(&tx) {
            return Err(AccountError::DuplicateTransaction);
        }
        if self.available.less_than(&amount) {
            return Err(AccountError::InsufficientFunds);
        }
        self.available = self.available.minus(amount);
        self.total = self.total.minus(amount);
        self.processed_transactions.insert(
            tx,
            TransactionType::Withdrawal { client: self.client, tx, amount },
        );
        proof {
            if old(self).wf() {
                crate::account::lemma_consistency_preserved(
                    old(self)@,
                    TransactionType::Withdrawal { client: self.client, tx, amount },
                );
            }
        }
        Ok(())
    }

    /// Handles a dispute: holds the amount of the deposit settled under `tx`
    /// and puts the id under dispute.  An id under dispute already and an id
    /// that is not settled are rejected, and nothing changes; the dispute of
    /// a withdrawal is accepted, and nothing changes either.
    pub fn dispute(&mut self, tx: u32) -> (res: Result<(), AccountError>)
        requires
            old(self).fits(old(self).dispute_of(tx)),
        ensures
            old(self).wf() ==> final(self).wf(),
            old(self)@.balanced() ==> final(self)@.balanced(),
            final(self)@.total == old(self)@.total,
            match old(self)@.dispute(tx) {
                Ok(next) => res == Ok::<(), AccountError>(()) && final(self)@ == next,
                Err(e) => res == Err::<(), AccountError>(e) && final(self)@ == old(self)@,
            },
            final(self).balances().follows(
                old(self).balances(),
                old(self)@,
                old(self).dispute_of(tx),
            ),
    {
        if self.disputed_transactions.contains(&tx) {
            return Err(AccountError::AlreadyDisputed);
        }
        let amount = match self.processed_transactions.get(&tx) {
            None => {
                return Err(AccountError::TransactionNotFound);
            },
            Some(TransactionType::Deposit { amount, .. }) => *amount,
            Some(_) => {
                return Ok(());
            },
        };
        self.available = self.available.minus(amount);
        self.held = self.held.plus(amount);
        self.disputed_transactions.insert(tx);
        proof {
            if old(self).wf() {
                crate::account::lemma_consistency_preserved(
                    old(self)@,
                    TransactionType::Dispute { client: self.client, tx },
                );
            }
        }
        Ok(())
    }

    /// Resolves the dispute of `tx`: releases the held amount of the deposit
    /// and closes the dispute.  An id that is not under dispute is rejected,
    /// and nothing changes.
    pub fn resolve(&mut self, tx: u32) -> (res: Result<(), AccountError>)
        requires
            old(self).fits(old(self).resolve_of(tx)),
        ensures
            old(self).wf() ==> final(self).wf(),
            old(self)@.balanced() ==> final(self)@.balanced(),
            final(self)@.total == old(self)@.total,
            match old(self)@.resolve(tx) {
                Ok(next) => res == Ok::<(), AccountError>(()) && final(self)@ == next,
                Err(e) => res == Err::<(), AccountError>(e) && final(self)@ == old(self)@,
            },
            final(self).balances().follows(
                old(self).balances(),
                old(self)@,
                old(self).resolve_of(tx),
            ),
    {
        if !self.disputed_transactions.remove(&tx) {
            assert(self.disputed_transactions@ =~= old(self).disputed_transactions@);
            return Err(AccountError::NotDisputed);
        }
        proof {
            if old(self).wf() {
                crate::account::lemma_consistency_preserved(
                    old(self)@,
                    TransactionType::Resolve { client: self.client, tx },
                );
            }
        }
        if let Some(TransactionType::Deposit { amount, .. }) = self.processed_transactions.get(&tx) {
            let amount = *amount;
            self.held = self.held.minus(amount);
            self.available = self.available.plus(amount);
        }
        Ok(())
    }

    /// Charges back the disputed deposit `tx`: its held amount leaves the
    /// account, the dispute is closed and the account is locked.  An id that
    /// is not under dispute is rejected, and nothing changes.
    pub fn chargeback(&mut self, tx: u32) -> (res: Result<(), AccountError>)
        requires
            old(self).fits(old(self).chargeback_of(tx)),
        ensures
            old(self).wf() ==> final(self).wf(),
            old(self)@.balanced() ==> final(self)@.balanced(),
            final(self)@.available == old(self)@.available,
            match old(self)@.chargeback(tx) {
                Ok(next) => res == Ok::<(), AccountError>(()) && final(self)@ == next,
                Err(e) => res == Err::<(), AccountError>(e) && final(self)@ == old(self)@,
            },
            final(self).balances().follows(
                old(self).balances(),
                old(self)@,
                old(self).chargeback_of(tx),
            ),
    {
        if !self.disputed_transactions.remove(&tx) {
            assert(self.disputed_transactions@ =~= old(self).disputed_transactions@);
            return Err(AccountError::NotDisputed);
        }
        proof {
            if old(self).wf() {
                crate::account::lemma_consistency_preserved(
                    old(self)@,
                    TransactionType::Chargeback { client: self.client, tx },
                );
            }
        }
        if let Some(TransactionType::Deposit { amount, .. }) = self.processed_transactions.get(&tx) {
            let amount = *amount;
            self.held = self.held.minus(amount);
            self.total = self.total.minus(amount);
            self.locked = true;
        }
        Ok(())
    }

    /// Applies the operation that `transaction` asks for, whatever account it
    /// names, if that keeps the balances exact.  If it does not, nothing is
    /// changed and `None` is returned.
    pub fn try_apply(&mut self, transaction: TransactionType) -> (r: Option<
        Result<(), AccountError>,
    >)
        ensures
            old(self).wf() ==> final(self).wf(),
            old(self)@.balanced() ==> final(self)@.balanced(),
            r is Some <==> old(self).fits(transaction),
            r matches Some(res) ==> match old(self)@.apply(transaction) {
                Ok(next) => res == Ok::<(), AccountError>(()) && final(self)@ == next,
                Err(e) => res == Err::<(), AccountError>(e) && final(self)@ == old(self)@,
            },
            r is Some ==> final(self).balances().follows(
                old(self).balances(),
                old(self)@,
                transaction,
            ),
            r is None ==> final(self)@ == old(self)@ && final(self).balances() == old(self).balances(),
    {
        if !self.can_apply(&transaction) {
            return None;
        }
        let res = match transaction {
            TransactionType::Deposit { amount, tx, .. } => self.deposit(amount, tx),
            TransactionType::Withdrawal { amount, tx, .. } => self.withdrawal(amount, tx),
            TransactionType::Dispute { tx, .. } => self.dispute(tx),
            TransactionType::Resolve { tx, .. } => self.resolve(tx),
            TransactionType::Chargeback { tx, .. } => self.chargeback(tx),
            TransactionType::Unknown => Ok(()),
        };
        Some(res)
    }

    /// The account as one row of a report: client, available, held and total
    /// as decimal text, and whether the account is locked.
    pub fn row(&self) -> (r: (u16, String, String, String, bool))
        ensures
            r.0 == self.client(),
            r.1@ == decimal_text(
                self.available().mantissa() as int,
                self.available().scale() as int,
            ),
            r.2@ == decimal_text(self.held().mantissa() as int, self.held().scale() as int),
            r.3@ == decimal_text(self.total().mantissa() as int, self.total().scale() as int),
            r.4 == self.locked(),
    {
        (
            self.client,
            self.available.to_string(),
            self.held.to_string(),
            self.total.to_string(),
            self.locked,
        )
    }

    /// Whether the operation that `transaction` asks for keeps the balances
    /// exact, so that it may be applied.
    pub fn can_apply(&self, transaction: &TransactionType) -> (r: bool)
        ensures
            r == self.fits(*transaction),
    {
        match transaction {
            TransactionType::Deposit { amount, tx, .. } => {
                self.processed_transactions.contains_key(tx) || amount.is_negative() || (
                self.available.can_add(amount) && self.total.can_add(amount))
            },
            TransactionType::Withdrawal { amount, tx, .. } => {
                self.processed_transactions.contains_key(tx) || self.available.less_than(amount)
                    || (self.available.can_subtract(amount) && self.total.can_subtract(amount))
            },
            TransactionType::Dispute { tx, .. } => {
                if self.disputed_transactions.contains(tx) {
                    true
                } else {
                    match self.processed_transactions.get(tx) {
                        Some(TransactionType::Deposit { amount, .. }) => self.available.can_subtract(
                            amount,
                        ) && self.held.can_add(amount),
                        _ => true,
                    }
                }
            },
            TransactionType::Resolve { tx, .. } => {
                if !self.disputed_transactions.contains(tx) {
                    true
                } else {
                    match self.processed_transactions.get(tx) {
                        Some(TransactionType::Deposit { amount, .. }) => self.held.can_subtract(
                            amount,
                        ) && self.available.can_add(amount),
                        _ => true,
                    }
                }
            },
            TransactionType::Chargeback { tx, .. } => {
                if !self.disputed_transactions.contains(tx) {
                    true
                } else {
                    match self.processed_transactions.get(tx) {
                        Some(TransactionType::Deposit { amount, .. }) => self.held.can_subtract(
                            amount,
                        ) && self.total.can_subtract(amount),
                        _ => true,
                    }
                }
            },
            TransactionType::Unknown => true,
        }
    }
}

impl Default for Client {
    /// The account of client 0, with nothing on it.
    fn default() -> (r: Self)
        ensures
            r@ == AccountModel::fresh(0),
            r.wf(),
    {
        Client::new(0)
    }
}

} // verus!
