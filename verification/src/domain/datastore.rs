use crate::model::account::Account;
use crate::model::transaction::{ClientID, Transaction, TxID, TxType};
use vstd::prelude::*;

verus! {

/// Errors of the storage layer.
#[derive(Debug, Clone, Copy, PartialEq, Eq, Structural)]
pub enum DataStoreError {
    /// A transaction with the same identifier is already stored.
    TxAlreadyExists,
    /// No stored transaction has the requested identifier.
    TxNotFound,
}

/// Result type of storage operations.
pub type DataStoreResult<T> = Result<T, DataStoreError>;

/// What a caller may hand to `insert_tx`: only deposits and
/// withdrawals are ever persisted, and they carry a non-negative
/// amount. The store itself does not inspect transactions; this is the
/// callers' contract.
pub open spec fn stored_tx_valid(tx: Transaction) -> bool {
    &&& tx.tx_type == TxType::Deposit || tx.tx_type == TxType::Withdrawal
    &&& tx.amount is Some
    &&& tx.amount->0 >= 0
}

/// Insertion of a transaction into a transaction map: fails and leaves
/// the map unchanged when the identifier is already present.
pub open spec fn insert_tx_spec(txs: Map<TxID, Transaction>, tx: Transaction) -> (Map<
    TxID,
    Transaction,
>, DataStoreResult<Transaction>) {
    if txs.contains_key(tx.tx) {
        (txs, Err(DataStoreError::TxAlreadyExists))
    } else {
        (txs.insert(tx.tx, tx), Ok(tx))
    }
}

/// The given transaction with its dispute flag set to `d`.
pub open spec fn set_disputed(t: Transaction, d: bool) -> Transaction {
    Transaction { disputed: d, ..t }
}

/// Setting the dispute flag of the stored transaction `id` to `d`;
/// a no-op when the identifier is absent.
pub open spec fn mark_spec(txs: Map<TxID, Transaction>, id: TxID, d: bool) -> Map<
    TxID,
    Transaction,
> {
    if txs.contains_key(id) {
        txs.insert(id, set_disputed(txs[id], d))
    } else {
        txs
    }
}

/// The stored account of `id`, or the fresh zero-balance account when
/// none is stored yet.
pub open spec fn get_or_create_spec(accs: Map<ClientID, Account>, id: ClientID) -> Account {
    if accs.contains_key(id) {
        accs[id]
    } else {
        Account::new_spec(id)
    }
}

/// A sequence that is a snapshot of all stored accounts, in no
/// particular order: each entry is the stored account of its client,
/// and every stored account appears.
pub open spec fn accounts_snapshot(accs: Map<ClientID, Account>, v: Seq<Account>) -> bool {
    &&& v.len() == accs.dom().len()
    &&& forall|i: int|
        0 <= i < v.len() ==> #[trigger] accs.contains_key(v[i].client) && v[i] == accs[v[i].client]
    &&& forall|c: ClientID|
        #[trigger] accs.contains_key(c) ==> exists|i: int|
            0 <= i < v.len() && #[trigger] v[i].client == c
}

/// The storage capability the ledger engine is written against: keyed
/// state for transactions and accounts. An implementation exposes its
/// contents as two maps and keeps its own invariant `inv`.
pub trait DataStore: Sized {
    /// The stored transactions, keyed by transaction identifier.
    spec fn txs_view(&self) -> Map<TxID, Transaction>;

    /// The stored accounts, keyed by client identifier.
    spec fn accounts_view(&self) -> Map<ClientID, Account>;

    /// Internal well-formedness of the store.
    spec fn inv(&self) -> bool;

    /// Returns a copy of the stored transaction `id`, or
    /// `TxNotFound` when it is absent.
    fn get_tx(&self, id: TxID) -> (r: DataStoreResult<Transaction>)
        requires
            self.inv(),
        ensures
            self.txs_view().contains_key(id) ==> r == Ok::<Transaction, DataStoreError>(
                self.txs_view()[id],
            ),
            !self.txs_view().contains_key(id) ==> r == Err::<Transaction, DataStoreError>(
                DataStoreError::TxNotFound,
            ),
    ;

    /// Inserts a transaction; fails with `TxAlreadyExists`, leaving the
    /// store unchanged, when its identifier is already present.
    fn insert_tx(&mut self, tx: Transaction) -> (r: DataStoreResult<Transaction>)
        requires
            old(self).inv(),
            stored_tx_valid(tx),
        ensures
            final(self).inv(),
            final(self).accounts_view() == old(self).accounts_view(),
            final(self).txs_view() == insert_tx_spec(old(self).txs_view(), tx).0,
            r == insert_tx_spec(old(self).txs_view(), tx).1,
    ;

    /// Returns a copy of the account of `id`; creates and persists the
    /// zero-balance unlocked account first when none exists. Never fails.
    fn get_account(&mut self, id: ClientID) -> (r: DataStoreResult<Account>)
        requires
            old(self).inv(),
        ensures
            final(self).inv(),
            final(self).txs_view() == old(self).txs_view(),
            r matches Ok(a) && a == get_or_create_spec(old(self).accounts_view(), id),
            final(self).accounts_view() == old(self).accounts_view().insert(
                id,
                get_or_create_spec(old(self).accounts_view(), id),
            ),
    ;

    /// Replaces the stored account keyed by `acc.client`, creating it
    /// if absent. Never fails.
    fn update_account(&mut self, acc: Account) -> (r: DataStoreResult<()>)
        requires
            old(self).inv(),
        ensures
            final(self).inv(),
            final(self).txs_view() == old(self).txs_view(),
            final(self).accounts_view() == old(self).accounts_view().insert(acc.client, acc),
            r is Ok,
    ;

    /// Sets the dispute flag of the stored transaction `id`; a silent
    /// no-op when the identifier is absent.
    fn mark_disputed(&mut self, id: TxID) -> (r: DataStoreResult<()>)
        requires
            old(self).inv(),
        ensures
            final(self).inv(),
            final(self).accounts_view() == old(self).accounts_view(),
            final(self).txs_view() == mark_spec(old(self).txs_view(), id, true),
            r is Ok,
    ;

    /// Clears the dispute flag of the stored transaction `id`; a silent
    /// no-op when the identifier is absent.
    fn mark_resolved(&mut self, id: TxID) -> (r: DataStoreResult<()>)
        requires
            old(self).inv(),
        ensures
            final(self).inv(),
            final(self).accounts_view() == old(self).accounts_view(),
            final(self).txs_view() == mark_spec(old(self).txs_view(), id, false),
            r is Ok,
    ;

    /// Returns a snapshot of all stored accounts, in no particular
    /// order. Never fails.
    fn get_accounts(&self) -> (r: DataStoreResult<Vec<Account>>)
        requires
            self.inv(),
        ensures
            r matches Ok(v) && accounts_snapshot(self.accounts_view(), v@),
    ;
}

/// Law: inserting the same transaction identifier twice fails the
/// second time with `TxAlreadyExists`, and the transaction stored by
/// the first insertion is unchanged.
pub proof fn lemma_insert_tx_idempotent(
    txs: Map<TxID, Transaction>,
    tx1: Transaction,
    tx2: Transaction,
)
    requires
        !txs.contains_key(tx1.tx),
        tx2.tx == tx1.tx,
    ensures
        ({
            let (m1, r1) = insert_tx_spec(txs, tx1);
            let (m2, r2) = insert_tx_spec(m1, tx2);
            &&& r1 == Ok::<Transaction, DataStoreError>(tx1)
            &&& r2 == Err::<Transaction, DataStoreError>(DataStoreError::TxAlreadyExists)
            &&& m2 == m1
            &&& m1[tx1.tx] == tx1
        }),
{
}

} // verus!
