use ledger::datastore::MemStore;
use ledger::domain::processor::{Processor, ProcessorError};
use ledger::model::transaction::{ClientID, Transaction, TxID, TxType, AMOUNT_SCALE};
use ledger::processor::TxProcessor;

fn tx(tx_type: TxType, client: ClientID, id: TxID, units: Option<i64>) -> Transaction {
    Transaction {
        tx_type,
        client,
        tx: id,
        amount: units.map(|u| u * AMOUNT_SCALE),
        disputed: false,
    }
}

fn engine() -> TxProcessor<MemStore> {
    TxProcessor::new(MemStore::new())
}

#[test]
fn scenario_deposit() {
    let mut p = engine();
    let acc = p.process(tx(TxType::Deposit, 1, 1, Some(10))).unwrap();
    assert_eq!(acc.client, 1);
    assert_eq!(acc.available, 10 * AMOUNT_SCALE);
    assert_eq!(acc.held, 0);
    assert_eq!(acc.total, 10 * AMOUNT_SCALE);
    assert!(!acc.locked);
}

#[test]
fn scenario_overdrawn_withdrawal() {
    let mut p = engine();
    p.process(tx(TxType::Deposit, 1, 1, Some(10))).unwrap();
    let r = p.process(tx(TxType::Withdrawal, 1, 2, Some(15)));
    assert_eq!(r.unwrap_err(), ProcessorError::NoFunds);
    let accs = p.accounts().unwrap();
    assert_eq!(accs.len(), 1);
    assert_eq!(accs[0].available, 10 * AMOUNT_SCALE);
    assert_eq!(accs[0].total, 10 * AMOUNT_SCALE);
}

#[test]
fn scenario_dispute() {
    let mut p = engine();
    p.process(tx(TxType::Deposit, 1, 1, Some(10))).unwrap();
    let acc = p.process(tx(TxType::Dispute, 1, 1, None)).unwrap();
    assert_eq!(acc.available, 0);
    assert_eq!(acc.held, 10 * AMOUNT_SCALE);
    assert_eq!(acc.total, 10 * AMOUNT_SCALE);
    assert!(!acc.locked);
    assert!(p.datastore.txs.get(&1).unwrap().disputed);
}

#[test]
fn scenario_chargeback() {
    let mut p = engine();
    p.process(tx(TxType::Deposit, 1, 1, Some(10))).unwrap();
    p.process(tx(TxType::Dispute, 1, 1, None)).unwrap();
    let acc = p.process(tx(TxType::ChargeBack, 1, 1, None)).unwrap();
    assert_eq!(acc.available, 0);
    assert_eq!(acc.held, 0);
    assert_eq!(acc.total, 0);
    assert!(acc.locked);
    assert!(!p.datastore.txs.get(&1).unwrap().disputed);
}

#[test]
fn scenario_dispute_unknown_tx() {
    let mut p = engine();
    let r = p.process(tx(TxType::Dispute, 1, 99, None));
    assert!(r.is_ok());
    let acc = r.unwrap();
    assert_eq!(acc.available, 0);
    assert_eq!(acc.held, 0);
    assert_eq!(acc.total, 0);
    assert!(!acc.locked);
}

#[test]
fn locked_account_rejects_later_transactions() {
    let mut p = engine();
    p.process(tx(TxType::Deposit, 1, 1, Some(10))).unwrap();
    p.process(tx(TxType::Dispute, 1, 1, None)).unwrap();
    p.process(tx(TxType::ChargeBack, 1, 1, None)).unwrap();

    let r = p.process(tx(TxType::Deposit, 1, 2, Some(5)));
    assert_eq!(r.unwrap_err(), ProcessorError::AccountLocked);
    // the deposit is still recorded, only the balance mutation is skipped
    assert!(p.datastore.txs.contains_key(&2));
    let accs = p.accounts().unwrap();
    assert_eq!(accs[0].available, 0);
    assert_eq!(accs[0].total, 0);
    assert!(accs[0].locked);
}

#[test]
fn duplicate_transaction_id_fails_second_time() {
    let mut p = engine();
    p.process(tx(TxType::Deposit, 1, 1, Some(10))).unwrap();
    let r = p.process(tx(TxType::Deposit, 1, 1, Some(10)));
    assert_eq!(r.unwrap_err(), ProcessorError::DuplicateTransaction);
    // the stored transaction is unchanged
    assert_eq!(
        p.datastore.txs.get(&1).unwrap().amount,
        Some(10 * AMOUNT_SCALE)
    );
    let accs = p.accounts().unwrap();
    assert_eq!(accs[0].available, 10 * AMOUNT_SCALE);
}

#[test]
fn duplicate_on_locked_account_reports_duplicate() {
    let mut p = engine();
    p.process(tx(TxType::Deposit, 1, 1, Some(10))).unwrap();
    p.process(tx(TxType::Dispute, 1, 1, None)).unwrap();
    p.process(tx(TxType::ChargeBack, 1, 1, None)).unwrap();
    // the insertion is attempted before the lock check
    let r = p.process(tx(TxType::Deposit, 1, 1, Some(10)));
    assert_eq!(r.unwrap_err(), ProcessorError::DuplicateTransaction);
}

#[test]
fn dispute_resolve_roundtrip_restores_balances() {
    let mut p = engine();
    p.process(tx(TxType::Deposit, 1, 1, Some(10))).unwrap();
    p.process(tx(TxType::Withdrawal, 1, 2, Some(3))).unwrap();
    let before = p.accounts().unwrap()[0];
    p.process(tx(TxType::Dispute, 1, 1, None)).unwrap();
    let after = p.process(tx(TxType::Resolve, 1, 1, None)).unwrap();
    assert_eq!(before.available, after.available);
    assert_eq!(before.held, after.held);
    assert_eq!(before.total, after.total);
    assert_eq!(after.available, 7 * AMOUNT_SCALE);
    assert_eq!(after.held, 0);
}

#[test]
fn resolve_without_dispute_is_applied_unconditionally() {
    let mut p = engine();
    p.process(tx(TxType::Deposit, 1, 1, Some(10))).unwrap();
    let acc = p.process(tx(TxType::Resolve, 1, 1, None)).unwrap();
    assert_eq!(acc.available, 20 * AMOUNT_SCALE);
    assert_eq!(acc.held, -10 * AMOUNT_SCALE);
    assert_eq!(acc.total, 10 * AMOUNT_SCALE);
    assert_eq!(acc.total, acc.available + acc.held);
}

#[test]
fn totals_stay_balanced_across_a_run() {
    let mut p = engine();
    p.process(tx(TxType::Deposit, 1, 1, Some(10))).unwrap();
    p.process(tx(TxType::Deposit, 2, 2, Some(4))).unwrap();
    p.process(tx(TxType::Withdrawal, 1, 3, Some(2))).unwrap();
    p.process(tx(TxType::Dispute, 1, 1, None)).unwrap();
    p.process(tx(TxType::ChargeBack, 1, 1, None)).unwrap();
    let accs = p.accounts().unwrap();
    assert_eq!(accs.len(), 2);
    for a in accs {
        assert_eq!(a.total, a.available + a.held);
    }
}

#[test]
fn dispute_can_reference_a_withdrawal() {
    let mut p = engine();
    p.process(tx(TxType::Deposit, 1, 1, Some(10))).unwrap();
    p.process(tx(TxType::Withdrawal, 1, 2, Some(4))).unwrap();
    let acc = p.process(tx(TxType::Dispute, 1, 2, None)).unwrap();
    assert_eq!(acc.available, 2 * AMOUNT_SCALE);
    assert_eq!(acc.held, 4 * AMOUNT_SCALE);
    assert_eq!(acc.total, 6 * AMOUNT_SCALE);
}

#[test]
fn tx_in_range_flags_overflowing_dispute() {
    let mut p = engine();
    let huge = Transaction {
        tx_type: TxType::Deposit,
        client: 1,
        tx: 1,
        amount: Some(i64::MAX),
        disputed: false,
    };
    p.process(huge).unwrap();
    let dispute = tx(TxType::Dispute, 1, 1, None);
    assert!(p.tx_in_range(&dispute));
    p.process(dispute).unwrap();
    // a second dispute of the same transaction would overflow the held funds
    assert!(!p.tx_in_range(&tx(TxType::Dispute, 1, 1, None)));
}

#[test]
fn tx_in_range_flags_overflowing_deposit() {
    let mut p = engine();
    let huge = Transaction {
        tx_type: TxType::Deposit,
        client: 1,
        tx: 1,
        amount: Some(i64::MAX),
        disputed: false,
    };
    assert!(p.tx_in_range(&huge));
    p.process(huge).unwrap();
    let more = Transaction {
        tx_type: TxType::Deposit,
        client: 1,
        tx: 2,
        amount: Some(1),
        disputed: false,
    };
    assert!(!p.tx_in_range(&more));
    let ok = tx(TxType::Deposit, 2, 3, Some(1));
    assert!(p.tx_in_range(&ok));
}
