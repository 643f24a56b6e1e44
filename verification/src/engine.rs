//! The ledger: every client's account, and the routing of transactions to
//! them.

use crate::account::{
    account_of, ledger_consistent, outcome, processed, AccountModel, LedgerModel,
};
use crate::amount::Amount;
use crate::client::{Balances, Client};
use crate::error::AccountError;
use crate::types::TransactionType;
use std::collections::HashMap;
use vstd::prelude::*;
use vstd::std_specs::hash::group_hash_axioms;

verus! {

broadcast use group_hash_axioms;

/// Transactions engine that helps with processing the transactions.
pub struct TransactionsEngine {
    clients: HashMap<u16, Client>,
}

impl View for TransactionsEngine {
    type V = LedgerModel;

    open spec fn view(&self) -> LedgerModel {
        self.accounts().map_values(|account: Client| account@)
    }
}

impl TransactionsEngine {
    /// The accounts by client.
    pub closed spec fn accounts(&self) -> Map<u16, Client> {
        self.clients@
    }

    /// Whether every account is in a state that the operations can have
    /// produced, and is filed under its own client.  `new` gives such an
    /// engine and `process_transaction` keeps it so; nothing else can change
    /// an engine.
    pub open spec fn wf(&self) -> bool {
        ledger_consistent(self@)
    }

    /// The balances of `client` as they are written; those of a client
    /// without an account are zero.
    pub open spec fn balances_of(&self, client: u16) -> Balances {
        if self.accounts().contains_key(client) {
            self.accounts()[client].balances()
        } else {
            Balances::zero()
        }
    }

    /// The operation that `transaction` asks of the account of `client`:
    /// none, unless the transaction names that client.
    pub open spec fn asked_of(transaction: TransactionType, client: u16) -> TransactionType {
        if transaction.client_id() == Some(client) {
            transaction
        } else {
            TransactionType::Unknown
        }
    }

    /// Whether `transaction` keeps the balances exact: the sums and
    /// differences that the operation asks for can be written without
    /// rounding.
    pub open spec fn accepts(&self, transaction: TransactionType) -> bool {
        match transaction.client_id() {
            Some(client) => self.balances_of(client).fits(
                account_of(self@, client),
                transaction,
            ),
            None => true,
        }
    }

    /// An engine without accounts.
    pub fn new() -> (r: Self)
        ensures
            r@ == Map::<u16, AccountModel>::empty(),
            r.wf(),
    {
        let r = TransactionsEngine { clients: HashMap::new() };
        assert(r@ =~= Map::<u16, AccountModel>::empty());
        r
    }

    /// Processes a transaction: the client it names gets an account if it
    /// has none, and the operation it asks for is applied to that account.
    /// What the account rejects is rejected here; an unknown transaction is
    /// accepted and changes nothing.
    pub fn process_transaction(&mut self, transaction: TransactionType) -> (res: Result<
        (),
        AccountError,
    >)
        requires
            old(self).accepts(transaction),
        ensures
            old(self).wf() ==> final(self).wf(),
            final(self)@ == processed(old(self)@, transaction),
            res == outcome(old(self)@, transaction),
            forall|client: u16|
                (#[trigger] final(self).balances_of(client)).follows(
                    old(self).balances_of(client),
                    account_of(old(self)@, client),
                    Self::asked_of(transaction, client),
                ),
    {
        let ghost before = old(self)@;
        let res = match transaction {
            TransactionType::Deposit { client, tx, amount } => {
                let account = self.clients.entry(client).or_insert(Client::new(client));
                account.deposit(amount, tx)
            },
            TransactionType::Withdrawal { client, tx, amount } => {
                let account = self.clients.entry(client).or_insert(Client::new(client));
                account.withdrawal(amount, tx)
            },
            TransactionType::Dispute { client, tx } => {
                let account = self.clients.entry(client).or_insert(Client::new(client));
                account.dispute(tx)
            },
            TransactionType::Resolve { client, tx } => {
                let account = self.clients.entry(client).or_insert(Client::new(client));
                account.resolve(tx)
            },
            TransactionType::Chargeback { client, tx } => {
                let account = self.clients.entry(client).or_insert(Client::new(client));
                account.chargeback(tx)
            },
            TransactionType::Unknown => Ok(()),
        };
        assert(self@ =~= processed(before, transaction));
        res
    }

    /// Processes a transaction if that keeps the balances exact.  If it does
    /// not, nothing is changed, not even an account made, and `None` is
    /// returned.
    pub fn try_process_transaction(&mut self, transaction: TransactionType) -> (r: Option<
        Result<(), AccountError>,
    >)
        ensures
            old(self).wf() ==> final(self).wf(),
            r is Some <==> old(self).accepts(transaction),
            r matches Some(res) ==> final(self)@ == processed(old(self)@, transaction) && res
                == outcome(old(self)@, transaction),
            r is None ==> final(self)@ == old(self)@,
            forall|client: u16|
                (#[trigger] final(self).balances_of(client)).follows(
                    old(self).balances_of(client),
                    account_of(old(self)@, client),
                    if r is Some {
                        Self::asked_of(transaction, client)
                    } else {
                        TransactionType::Unknown
                    },
                ),
    {
        if self.can_process(&transaction) {
            Some(self.process_transaction(transaction))
        } else {
            None
        }
    }

    /// Whether `transaction` keeps the balances exact, so that it may be
    /// processed.
    pub fn can_process(&self, transaction: &TransactionType) -> (r: bool)
        ensures
            r == self.accepts(*transaction),
    {
        match transaction.client_id() {
            Some(client) => match self.clients.get(&client) {
                Some(account) => account.can_apply(transaction),
                None => {
                    proof {
                        Amount::lemma_of_parts(0, 0);
                    }
                    true
                },
            },
            None => true,
        }
    }

    /// The account of `client`, if a transaction has named that client.
    pub fn client(&self, client: u16) -> (r: Option<&Client>)
        ensures
            match r {
                Some(account) => self.accounts().contains_key(client) && *account
                    == self.accounts()[client],
                None => !self.accounts().contains_key(client),
            },
    {
        self.clients.get(&client)
    }

    /// Every account, in the order of the client ids: each id is looked up
    /// in turn, so that the order does not depend on how the map is laid out.
    pub fn clients(&self) -> (r: Vec<&Client>)
        requires
            self.wf(),
        ensures
            forall|i: int|
                0 <= i < r@.len() ==> self.accounts().contains_key((#[trigger] r@[i]).client())
                    && *r@[i] == self.accounts()[r@[i].client()],
            forall|i: int, j: int|
                0 <= i < j < r@.len() ==> (#[trigger] r@[i]).client() < (#[trigger] r@[j]).client(),
            forall|client: u16| #[trigger]
                self.accounts().contains_key(client) ==> exists|i: int|
                    0 <= i < r@.len() && (#[trigger] r@[i]).client() == client,
    {
        let mut accounts: Vec<&Client> = Vec::new();
        let mut next: u32 = 0;
        while next <= 0xffff
            invariant
                self.wf(),
                next <= 0x10000,
                forall|i: int|
                    0 <= i < accounts@.len() ==> self.accounts().contains_key(
                        (#[trigger] accounts@[i]).client(),
                    ) && *accounts@[i] == self.accounts()[accounts@[i].client()]
                        && accounts@[i].client() < next,
                forall|i: int, j: int|
                    0 <= i < j < accounts@.len() ==> (#[trigger] accounts@[i]).client() < (
                    #[trigger] accounts@[j]).client(),
                forall|client: u16| #[trigger]
                    self.accounts().contains_key(client) && client < next ==> exists|i: int|
                        0 <= i < accounts@.len() && (#[trigger] accounts@[i]).client() == client,
            decreases 0x10000 - next,
        {
            let client = next as u16;
            if let Some(account) = self.clients.get(&client) {
                let ghost before = accounts@;
                assert(self@.contains_key(client) && self@[client] == account@);
                accounts.push(account);
                assert forall|other: u16| #[trigger]
                    self.accounts().contains_key(other) && other < next + 1 implies exists|i: int|
                    0 <= i < accounts@.len() && (#[trigger] accounts@[i]).client() == other by {
                    if other < next {
                        let i = choose|i: int|
                            0 <= i < before.len() && (#[trigger] before[i]).client() == other;
                        assert(accounts@[i] == before[i]);
                    } else {
                        assert(accounts@[before.len() as int].client() == other);
                    }
                }
            }
            next = next + 1;
        }
        accounts
    }
}

} // verus!
