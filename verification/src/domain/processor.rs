use crate::domain::datastore::{get_or_create_spec, mark_spec, stored_tx_valid};
use crate::model::account::Account;
use crate::model::transaction::{Amount, ClientID, Transaction, TxID, TxType};
use vstd::prelude::*;

verus! {

/// Errors of the ledger engine.
#[derive(Debug, Clone, Copy, PartialEq, Eq, Structural)]
pub enum ProcessorError {
    /// The account is locked; no balance mutation took place.
    AccountLocked,
    /// A withdrawal asked for more than the available funds.
    NoFunds,
    /// A deposit or withdrawal reused an already stored identifier.
    DuplicateTransaction,
}

/// Result type of engine operations.
pub type ProcessorResult<T> = Result<T, ProcessorError>;

/// The kinds that carry funds and are persisted: deposits and
/// withdrawals. The dispute family only references them.
pub open spec fn is_monetary(t: TxType) -> bool {
    t == TxType::Deposit || t == TxType::Withdrawal
}

/// A structurally valid incoming transaction: deposits and withdrawals
/// carry a non-negative amount.
pub open spec fn tx_valid(tx: Transaction) -> bool {
    is_monetary(tx.tx_type) ==> tx.amount is Some && tx.amount->0 >= 0
}

/// Whether a mathematical amount fits the fixed-point representation.
pub open spec fn fits_amount(x: int) -> bool {
    i64::MIN <= x <= i64::MAX
}

/// Every stored transaction is coherent with its key and valid.
pub open spec fn txs_wf(txs: Map<TxID, Transaction>) -> bool {
    forall|t: TxID| #[trigger]
        txs.contains_key(t) ==> txs[t].tx == t && stored_tx_valid(txs[t])
}

/// Every stored account is coherent with its key and balanced.
pub open spec fn accounts_wf(accs: Map<ClientID, Account>) -> bool {
    forall|c: ClientID| #[trigger]
        accs.contains_key(c) ==> accs[c].client == c && accs[c].balanced()
}

/// Well-formedness of the whole ledger state.
pub open spec fn state_wf(txs: Map<TxID, Transaction>, accs: Map<ClientID, Account>) -> bool {
    txs_wf(txs) && accounts_wf(accs)
}

/// Effect of a deposit of `amt` on an account.
pub open spec fn deposit_spec(acc: Account, amt: Amount) -> Account {
    Account {
        available: (acc.available + amt) as i64,
        total: (acc.total + amt) as i64,
        ..acc
    }
}

/// Effect of a withdrawal of `amt` on an account: fails with
/// `NoFunds`, mutating nothing, when the available funds fall short.
pub open spec fn withdrawal_spec(acc: Account, amt: Amount) -> (Account, ProcessorResult<()>) {
    if acc.available < amt {
        (acc, Err(ProcessorError::NoFunds))
    } else {
        (
            Account {
                available: (acc.available - amt) as i64,
                total: (acc.total - amt) as i64,
                ..acc
            },
            Ok(()),
        )
    }
}

/// Effect of a dispute of stored transaction `id`: moves the disputed
/// amount from available to held and flags the transaction; a silent
/// no-op when `id` is not stored.
pub open spec fn dispute_spec(acc: Account, txs: Map<TxID, Transaction>, id: TxID) -> (
    Account,
    Map<TxID, Transaction>,
) {
    if !txs.contains_key(id) {
        (acc, txs)
    } else {
        let a = txs[id].amount->0;
        (
            Account {
                available: (acc.available - a) as i64,
                held: (acc.held + a) as i64,
                ..acc
            },
            mark_spec(txs, id, true),
        )
    }
}

/// Effect of a resolve of stored transaction `id`: moves the disputed
/// amount back from held to available and clears the flag; a silent
/// no-op when `id` is not stored.
pub open spec fn resolve_spec(acc: Account, txs: Map<TxID, Transaction>, id: TxID) -> (
    Account,
    Map<TxID, Transaction>,
) {
    if !txs.contains_key(id) {
        (acc, txs)
    } else {
        let a = txs[id].amount->0;
        (
            Account {
                available: (acc.available + a) as i64,
                held: (acc.held - a) as i64,
                ..acc
            },
            mark_spec(txs, id, false),
        )
    }
}

/// Effect of a chargeback of stored transaction `id`: withdraws the
/// held amount, locks the account and clears the flag; a silent no-op
/// when `id` is not stored.
pub open spec fn chargeback_spec(acc: Account, txs: Map<TxID, Transaction>, id: TxID) -> (
    Account,
    Map<TxID, Transaction>,
) {
    if !txs.contains_key(id) {
        (acc, txs)
    } else {
        let a = txs[id].amount->0;
        (
            Account {
                held: (acc.held - a) as i64,
                total: (acc.total - a) as i64,
                locked: true,
                ..acc
            },
            mark_spec(txs, id, false),
        )
    }
}

/// Dispatch of the per-kind rule: the mutated account, the stored
/// transactions after flag updates, and the rule's outcome.
pub open spec fn apply_spec(acc: Account, tx: Transaction, txs: Map<TxID, Transaction>) -> (
    Account,
    Map<TxID, Transaction>,
    ProcessorResult<()>,
) {
    match tx.tx_type {
        TxType::Deposit => (deposit_spec(acc, tx.amount->0), txs, Ok(())),
        TxType::Withdrawal => {
            let (a, r) = withdrawal_spec(acc, tx.amount->0);
            (a, txs, r)
        },
        TxType::Dispute => {
            let (a, m) = dispute_spec(acc, txs, tx.tx);
            (a, m, Ok(()))
        },
        TxType::Resolve => {
            let (a, m) = resolve_spec(acc, txs, tx.tx);
            (a, m, Ok(()))
        },
        TxType::ChargeBack => {
            let (a, m) = chargeback_spec(acc, txs, tx.tx);
            (a, m, Ok(()))
        },
    }
}

/// Whether the arithmetic of the per-kind rule stays within the
/// fixed-point range on the given account.
pub open spec fn rule_in_range(acc: Account, tx: Transaction, txs: Map<TxID, Transaction>) -> bool {
    match tx.tx_type {
        TxType::Deposit => fits_amount(acc.available + tx.amount->0) && fits_amount(
            acc.total + tx.amount->0,
        ),
        TxType::Withdrawal => true,
        TxType::Dispute => txs.contains_key(tx.tx) ==> {
            let a = txs[tx.tx].amount->0;
            fits_amount(acc.available - a) && fits_amount(acc.held + a)
        },
        TxType::Resolve => txs.contains_key(tx.tx) ==> {
            let a = txs[tx.tx].amount->0;
            fits_amount(acc.available + a) && fits_amount(acc.held - a)
        },
        TxType::ChargeBack => txs.contains_key(tx.tx) ==> {
            let a = txs[tx.tx].amount->0;
            fits_amount(acc.held - a) && fits_amount(acc.total - a)
        },
    }
}

/// One full processing step on the ledger state: the stored
/// transactions and accounts after the step, and what `process`
/// returns. A deposit or withdrawal is persisted first (failing with
/// `DuplicateTransaction` on a reused identifier), the account is
/// loaded or created, a locked account fails with `AccountLocked`
/// before any balance mutation, and otherwise the per-kind rule is
/// applied and the account written back.
pub open spec fn step(
    txs: Map<TxID, Transaction>,
    accs: Map<ClientID, Account>,
    tx: Transaction,
) -> (Map<TxID, Transaction>, Map<ClientID, Account>, ProcessorResult<Account>) {
    if is_monetary(tx.tx_type) && txs.contains_key(tx.tx) {
        (txs, accs, Err(ProcessorError::DuplicateTransaction))
    } else {
        let txs1 = if is_monetary(tx.tx_type) {
            txs.insert(tx.tx, tx)
        } else {
            txs
        };
        let acc = get_or_create_spec(accs, tx.client);
        let accs1 = accs.insert(tx.client, acc);
        if acc.locked {
            (txs1, accs1, Err(ProcessorError::AccountLocked))
        } else {
            let (acc2, txs2, res) = apply_spec(acc, tx, txs1);
            match res {
                Ok(u) => (txs2, accs1.insert(tx.client, acc2), Ok(acc2)),
                Err(e) => (txs2, accs1, Err(e)),
            }
        }
    }
}

/// Whether the arithmetic of a full processing step stays within the
/// fixed-point range.
pub open spec fn step_in_range(
    txs: Map<TxID, Transaction>,
    accs: Map<ClientID, Account>,
    tx: Transaction,
) -> bool {
    if is_monetary(tx.tx_type) && txs.contains_key(tx.tx) {
        true
    } else {
        let txs1 = if is_monetary(tx.tx_type) {
            txs.insert(tx.tx, tx)
        } else {
            txs
        };
        let acc = get_or_create_spec(accs, tx.client);
        acc.locked || rule_in_range(acc, tx, txs1)
    }
}

/// The ledger engine: turns one transaction into at most one account
/// mutation, against an abstract store.
pub trait Processor: Sized {
    /// The stored transactions the engine works on.
    spec fn txs_view(&self) -> Map<TxID, Transaction>;

    /// The stored accounts the engine works on.
    spec fn accounts_view(&self) -> Map<ClientID, Account>;

    /// Well-formedness of the engine and its store.
    spec fn wf(&self) -> bool;

    /// Processes one transaction and returns the resulting account, or
    /// the failure for this single transaction.
    fn process(&mut self, tx: Transaction) -> (r: ProcessorResult<Account>)
        requires
            old(self).wf(),
            tx_valid(tx),
            step_in_range(old(self).txs_view(), old(self).accounts_view(), tx),
        ensures
            final(self).wf(),
            final(self).txs_view() == step(
                old(self).txs_view(),
                old(self).accounts_view(),
                tx,
            ).0,
            final(self).accounts_view() == step(
                old(self).txs_view(),
                old(self).accounts_view(),
                tx,
            ).1,
            r == step(old(self).txs_view(), old(self).accounts_view(), tx).2,
    ;

    /// Returns a snapshot of all accounts, in no particular order.
    fn accounts(&self) -> (r: ProcessorResult<Vec<Account>>)
        requires
            self.wf(),
        ensures
            r matches Ok(v) && crate::domain::datastore::accounts_snapshot(
                self.accounts_view(),
                v@,
            ),
    ;
}

/// Law: a processing step preserves well-formedness of the ledger
/// state; in particular every account still satisfies
/// `total == available + held` afterwards.
pub proof fn lemma_step_preserves_wf(
    txs: Map<TxID, Transaction>,
    accs: Map<ClientID, Account>,
    tx: Transaction,
)
    requires
        state_wf(txs, accs),
        tx_valid(tx),
        step_in_range(txs, accs, tx),
    ensures
        state_wf(step(txs, accs, tx).0, step(txs, accs, tx).1),
{
}

/// Law: once an account is locked, no processing step changes its
/// balances or its lock; a step that addresses it (and does not already
/// fail as a duplicate insertion) returns `AccountLocked`.
pub proof fn lemma_locked_account_unchanged(
    txs: Map<TxID, Transaction>,
    accs: Map<ClientID, Account>,
    tx: Transaction,
    c: ClientID,
)
    requires
        state_wf(txs, accs),
        accs.contains_key(c),
        accs[c].locked,
    ensures
        step(txs, accs, tx).1.contains_key(c),
        step(txs, accs, tx).1[c] == accs[c],
        tx.client == c && !(is_monetary(tx.tx_type) && txs.contains_key(tx.tx)) ==> step(
            txs,
            accs,
            tx,
        ).2 == Err::<Account, ProcessorError>(ProcessorError::AccountLocked),
{
}

/// Law: a dispute followed immediately by a resolve of the same stored
/// transaction restores the available and held funds of the account to
/// their pre-dispute values exactly, and leaves it unlocked.
pub proof fn lemma_dispute_resolve_roundtrip(
    txs: Map<TxID, Transaction>,
    accs: Map<ClientID, Account>,
    d: Transaction,
    rs: Transaction,
)
    requires
        state_wf(txs, accs),
        d.tx_type == TxType::Dispute,
        rs.tx_type == TxType::Resolve,
        rs.tx == d.tx,
        rs.client == d.client,
        txs.contains_key(d.tx),
        !get_or_create_spec(accs, d.client).locked,
        step_in_range(txs, accs, d),
    ensures
        ({
            let s1 = step(txs, accs, d);
            let s2 = step(s1.0, s1.1, rs);
            let acc0 = get_or_create_spec(accs, d.client);
            &&& s2.1.contains_key(d.client)
            &&& s2.1[d.client].available == acc0.available
            &&& s2.1[d.client].held == acc0.held
            &&& s2.1[d.client].total == acc0.total
            &&& s2.1[d.client].locked == false
        }),
{
}

} // verus!
