use ledger::datastore::MemStore;
use ledger::domain::datastore::{DataStore, DataStoreError};
use ledger::model::account::Account;
use ledger::model::transaction::Transaction;

#[test]
fn test_insert_tx_account() {
    let mut store = MemStore::new();
    let tx = Transaction::default();

    let r = store.insert_tx(tx.clone());
    assert!(r.is_ok());
    assert_eq!(tx, r.unwrap());

    let got_tx = store.get_tx(tx.tx);
    assert_eq!(0, got_tx.unwrap().tx);
}

#[test]
fn test_insert_tx_already_exists() {
    let mut store = MemStore::new();
    let tx = Transaction::default();

    let mut r = store.insert_tx(tx.clone());
    assert!(r.is_ok());
    assert_eq!(tx, r.unwrap());

    r = store.insert_tx(tx.clone());
    assert!(r.is_err());
    assert_eq!(r.unwrap_err(), DataStoreError::TxAlreadyExists);
}

#[test]
fn test_insert_account() {
    let mut store = MemStore::new();
    let acc = Account::new(0);

    let got_acc = store.get_account(0);
    assert_eq!(acc, got_acc.unwrap());
}

#[test]
fn test_get_tx_not_found() {
    let store = MemStore::new();
    let r = store.get_tx(99);
    assert_eq!(r.unwrap_err(), DataStoreError::TxNotFound);
}

#[test]
fn test_mark_disputed_and_resolved() {
    let mut store = MemStore::new();
    let tx = Transaction::default();
    store.insert_tx(tx.clone()).unwrap();

    store.mark_disputed(tx.tx).unwrap();
    assert!(store.get_tx(tx.tx).unwrap().disputed);

    store.mark_resolved(tx.tx).unwrap();
    assert!(!store.get_tx(tx.tx).unwrap().disputed);

    // marking an unknown transaction is a silent no-op
    assert!(store.mark_disputed(99).is_ok());
    assert!(store.get_tx(99).is_err());
}

#[test]
fn test_get_accounts_snapshot() {
    let mut store = MemStore::new();
    store.get_account(1).unwrap();
    store.get_account(2).unwrap();
    let mut accs = store.get_accounts().unwrap();
    assert_eq!(2, accs.len());
    accs.sort_by_key(|a| a.client);
    assert_eq!(accs[0], Account::new(1));
    assert_eq!(accs[1], Account::new(2));
}
