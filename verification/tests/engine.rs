use transactions_engine::{AccountError, Amount, TransactionType, TransactionsEngine};

#[test]
fn test_process_transaction() {
    let mut engine = TransactionsEngine::new();
    let client_id = 1;

    let deposit_tx = TransactionType::Deposit {
        client: client_id,
        tx: 1,
        amount: Amount::new(3, 0),
    };
    engine
        .process_transaction(deposit_tx)
        .expect("Could not process deposit.");

    let withdrawal_tx = TransactionType::Withdrawal {
        client: client_id,
        tx: 2,
        amount: Amount::new(2, 0),
    };
    engine
        .process_transaction(withdrawal_tx)
        .expect("Could not process withdrawal.");

    let client = engine.client(client_id).unwrap();
    assert_eq!(client.available(), Amount::new(1, 0));
    assert_eq!(client.total(), Amount::new(1, 0));
    assert_eq!(client.held(), Amount::new(0, 0));
    assert!(!client.locked());
    assert!(client.processed_transaction(1).is_some());

    let deposit_tx = TransactionType::Deposit {
        client: client_id,
        tx: 3,
        amount: Amount::new(3, 0),
    };
    engine
        .process_transaction(deposit_tx.clone())
        .expect("Could not process deposit.");

    // check that processing the same transaction twice fails
    assert!(engine.process_transaction(deposit_tx).is_err());

    let resolve_tx = TransactionType::Resolve {
        client: client_id,
        tx: 3,
    };

    // check that resolving an undisputed transaction fails
    assert!(engine.process_transaction(resolve_tx.clone()).is_err());

    let dispute_tx = TransactionType::Dispute {
        client: client_id,
        tx: 3,
    };
    engine
        .process_transaction(dispute_tx)
        .expect("Could not dispute transaction.");

    let client = engine.client(client_id).unwrap();
    assert_eq!(client.available(), Amount::new(1, 0));
    assert_eq!(client.total(), Amount::new(4, 0));
    assert_eq!(client.held(), Amount::new(3, 0));
    assert!(!client.locked());

    engine
        .process_transaction(resolve_tx)
        .expect("Could not resolve transaction");

    let client = engine.client(client_id).unwrap();
    assert_eq!(client.available(), Amount::new(4, 0));
    assert_eq!(client.total(), Amount::new(4, 0));
    assert_eq!(client.held(), Amount::new(0, 0));
    assert!(!client.locked());

    let deposit_tx = TransactionType::Deposit {
        client: client_id,
        tx: 4,
        amount: Amount::new(1, 0),
    };
    engine
        .process_transaction(deposit_tx)
        .expect("Could not process deposit.");

    let dispute_tx = TransactionType::Dispute {
        client: client_id,
        tx: 4,
    };
    engine
        .process_transaction(dispute_tx)
        .expect("Could not dispute transaction.");

    let chargeback_tx = TransactionType::Chargeback {
        client: client_id,
        tx: 4,
    };
    engine
        .process_transaction(chargeback_tx)
        .expect("Could not chargeback transaction.");

    let client = engine.client(client_id).unwrap();
    assert_eq!(client.available(), Amount::new(4, 0));
    assert_eq!(client.total(), Amount::new(4, 0));
    assert_eq!(client.held(), Amount::new(0, 0));
    assert!(client.locked());
}

fn deposit(client: u16, tx: u32, units: i64) -> TransactionType {
    TransactionType::Deposit { client, tx, amount: Amount::new(units, 0) }
}

fn withdrawal(client: u16, tx: u32, units: i64) -> TransactionType {
    TransactionType::Withdrawal { client, tx, amount: Amount::new(units, 0) }
}

fn check_balances(
    engine: &TransactionsEngine,
    client: u16,
    available: i64,
    held: i64,
    total: i64,
    locked: bool,
) {
    let account = engine.client(client).unwrap();
    assert_eq!(account.available(), Amount::new(available, 0));
    assert_eq!(account.held(), Amount::new(held, 0));
    assert_eq!(account.total(), Amount::new(total, 0));
    assert_eq!(account.locked(), locked);
}

fn after_deposit_and_withdrawal() -> TransactionsEngine {
    let mut engine = TransactionsEngine::new();
    assert_eq!(engine.process_transaction(deposit(1, 1, 3)), Ok(()));
    check_balances(&engine, 1, 3, 0, 3, false);
    assert_eq!(engine.process_transaction(withdrawal(1, 2, 2)), Ok(()));
    check_balances(&engine, 1, 1, 0, 1, false);
    engine
}

fn after_resolved_dispute() -> TransactionsEngine {
    let mut engine = after_deposit_and_withdrawal();
    assert_eq!(engine.process_transaction(deposit(1, 3, 3)), Ok(()));
    check_balances(&engine, 1, 4, 0, 4, false);
    assert_eq!(
        engine.process_transaction(TransactionType::Dispute { client: 1, tx: 3 }),
        Ok(())
    );
    check_balances(&engine, 1, 1, 3, 4, false);
    assert_eq!(
        engine.process_transaction(TransactionType::Resolve { client: 1, tx: 3 }),
        Ok(())
    );
    check_balances(&engine, 1, 4, 0, 4, false);
    engine
}

fn after_chargeback() -> TransactionsEngine {
    let mut engine = after_resolved_dispute();
    assert_eq!(engine.process_transaction(deposit(1, 4, 1)), Ok(()));
    check_balances(&engine, 1, 5, 0, 5, false);
    assert_eq!(
        engine.process_transaction(TransactionType::Dispute { client: 1, tx: 4 }),
        Ok(())
    );
    check_balances(&engine, 1, 4, 1, 5, false);
    assert_eq!(
        engine.process_transaction(TransactionType::Chargeback { client: 1, tx: 4 }),
        Ok(())
    );
    check_balances(&engine, 1, 4, 0, 4, true);
    engine
}

#[test]
fn deposit_then_withdrawal() {
    after_deposit_and_withdrawal();
}

#[test]
fn dispute_then_resolve() {
    after_resolved_dispute();
}

#[test]
fn dispute_then_chargeback_locks() {
    after_chargeback();
}

#[test]
fn same_deposit_again_is_a_duplicate() {
    let mut engine = after_chargeback();
    assert_eq!(
        engine.process_transaction(deposit(1, 4, 1)),
        Err(AccountError::DuplicateTransaction)
    );
    assert_eq!(
        engine.process_transaction(deposit(1, 1, 3)),
        Err(AccountError::DuplicateTransaction)
    );
    check_balances(&engine, 1, 4, 0, 4, true);
}

#[test]
fn new_engine_has_no_accounts() {
    let engine = TransactionsEngine::new();
    assert!(engine.client(1).is_none());
    assert!(engine.clients().is_empty());
}

#[test]
fn unknown_transaction_changes_nothing() {
    let mut engine = TransactionsEngine::new();
    assert_eq!(engine.process_transaction(TransactionType::Unknown), Ok(()));
    assert!(engine.clients().is_empty());
}

#[test]
fn any_transaction_creates_the_account() {
    let mut engine = TransactionsEngine::new();
    assert_eq!(
        engine.process_transaction(TransactionType::Dispute { client: 5, tx: 1 }),
        Err(AccountError::TransactionNotFound)
    );
    assert_eq!(
        engine.process_transaction(TransactionType::Resolve { client: 6, tx: 1 }),
        Err(AccountError::NotDisputed)
    );
    assert_eq!(
        engine.process_transaction(TransactionType::Chargeback { client: 7, tx: 1 }),
        Err(AccountError::NotDisputed)
    );
    assert_eq!(
        engine.process_transaction(withdrawal(8, 1, 1)),
        Err(AccountError::InsufficientFunds)
    );
    assert_eq!(
        engine.process_transaction(TransactionType::Deposit {
            client: 9,
            tx: 1,
            amount: Amount::new(-1, 0)
        }),
        Err(AccountError::InvalidAmount)
    );
    for client in 5..=9 {
        check_balances(&engine, client, 0, 0, 0, false);
    }
    assert_eq!(engine.clients().len(), 5);
}

#[test]
fn transaction_ids_are_per_account() {
    let mut engine = TransactionsEngine::new();
    assert_eq!(engine.process_transaction(deposit(1, 1, 3)), Ok(()));
    assert_eq!(engine.process_transaction(deposit(2, 1, 5)), Ok(()));
    assert_eq!(
        engine.process_transaction(TransactionType::Dispute { client: 2, tx: 1 }),
        Ok(())
    );
    check_balances(&engine, 1, 3, 0, 3, false);
    check_balances(&engine, 2, 0, 5, 5, false);
    assert_eq!(
        engine.process_transaction(TransactionType::Resolve { client: 1, tx: 1 }),
        Err(AccountError::NotDisputed)
    );
}

#[test]
fn accounts_are_listed_by_client_id() {
    let mut engine = TransactionsEngine::new();
    for client in [4000u16, 7, 65535, 0, 300] {
        assert_eq!(engine.process_transaction(deposit(client, 1, i64::from(client))), Ok(()));
    }
    let accounts = engine.clients();
    let ids: Vec<u16> = accounts.iter().map(|account| account.client()).collect();
    assert_eq!(ids, vec![0, 7, 300, 4000, 65535]);
    for account in accounts {
        assert_eq!(account.total(), Amount::new(i64::from(account.client()), 0));
    }
}

#[test]
fn can_process_tells_what_keeps_balances_exact() {
    let mut engine = TransactionsEngine::new();
    let largest = Amount::from_parts(79228162514264337593543950335, 0).unwrap();
    let first = TransactionType::Deposit { client: 1, tx: 1, amount: largest };
    assert!(engine.can_process(&first));
    assert_eq!(engine.process_transaction(first), Ok(()));
    let second = TransactionType::Deposit { client: 1, tx: 2, amount: largest };
    assert!(!engine.can_process(&second));
    let other = TransactionType::Deposit { client: 2, tx: 2, amount: largest };
    assert!(engine.can_process(&other));
    assert!(engine.can_process(&TransactionType::Unknown));
    assert!(engine.can_process(&TransactionType::Dispute { client: 1, tx: 1 }));
}

#[test]
fn negative_withdrawal_is_applied() {
    let mut engine = TransactionsEngine::new();
    assert_eq!(engine.process_transaction(withdrawal(3, 1, -2)), Ok(()));
    check_balances(&engine, 3, 2, 0, 2, false);
    assert_eq!(
        engine.process_transaction(withdrawal(3, 1, -2)),
        Err(AccountError::DuplicateTransaction)
    );
    assert_eq!(
        engine.process_transaction(withdrawal(3, 2, 3)),
        Err(AccountError::InsufficientFunds)
    );
    check_balances(&engine, 3, 2, 0, 2, false);
}

#[test]
fn try_process_does_what_fits_and_nothing_else() {
    let mut engine = TransactionsEngine::new();
    let largest = Amount::from_parts(79228162514264337593543950335, 0).unwrap();
    let first = TransactionType::Deposit { client: 1, tx: 1, amount: largest };
    assert_eq!(engine.try_process_transaction(first), Some(Ok(())));
    let second = TransactionType::Deposit { client: 1, tx: 2, amount: largest };
    assert_eq!(engine.try_process_transaction(second), None);
    let account = engine.client(1).unwrap();
    assert_eq!(account.total(), largest);
    assert!(account.processed_transaction(2).is_none());
    assert_eq!(engine.clients().len(), 1);

    assert_eq!(
        engine.try_process_transaction(first),
        Some(Err(AccountError::DuplicateTransaction))
    );
    assert_eq!(
        engine.try_process_transaction(TransactionType::Dispute { client: 2, tx: 1 }),
        Some(Err(AccountError::TransactionNotFound))
    );
    assert_eq!(engine.clients().len(), 2);
    assert_eq!(
        engine.try_process_transaction(TransactionType::Unknown),
        Some(Ok(()))
    );
    assert_eq!(
        engine.try_process_transaction(TransactionType::Deposit {
            client: 2,
            tx: 1,
            amount: largest
        }),
        Some(Ok(()))
    );
    assert_eq!(engine.client(1).unwrap().total(), largest);
    assert_eq!(engine.client(2).unwrap().total(), largest);
    assert_eq!(engine.client(2).unwrap().held(), Amount::zero());
}
