use crate::domain::datastore::{DataStore, DataStoreError, DataStoreResult};
use crate::model::account::Account;
use crate::model::transaction::{ClientID, Transaction, TxID};
use std::collections::HashMap;
use vstd::prelude::*;
use vstd::std_specs::iter::{IteratorSpec, VerusForLoopWrapper};

verus! {

broadcast use vstd::std_specs::hash::group_hash_axioms;

/// An in-memory store: two hash maps, one for transactions and one for
/// accounts.
pub struct MemStore {
    /// Stored accounts, keyed by client identifier.
    pub accounts: HashMap<ClientID, Account>,
    /// Stored transactions, keyed by transaction identifier.
    pub txs: HashMap<TxID, Transaction>,
}

impl MemStore {
    /// Creates an empty store.
    pub fn new() -> (r: Self)
        ensures
            r.inv(),
            r.txs_view() == Map::<TxID, Transaction>::empty(),
            r.accounts_view() == Map::<ClientID, Account>::empty(),
    {
        MemStore { accounts: HashMap::new(), txs: HashMap::new() }
    }
}

impl DataStore for MemStore {
    open spec fn txs_view(&self) -> Map<TxID, Transaction> {
        self.txs@
    }

    open spec fn accounts_view(&self) -> Map<ClientID, Account> {
        self.accounts@
    }

    open spec fn inv(&self) -> bool {
        &&& forall|t: TxID| #[trigger] self.txs@.contains_key(t) ==> self.txs@[t].tx == t
        &&& forall|c: ClientID| #[trigger]
            self.accounts@.contains_key(c) ==> self.accounts@[c].client == c
    }

    fn get_tx(&self, id: TxID) -> (r: DataStoreResult<Transaction>) {
        match self.txs.get(&id) {
            Some(t) => Ok(*t),
            None => Err(DataStoreError::TxNotFound),
        }
    }

    fn insert_tx(&mut self, tx: Transaction) -> (r: DataStoreResult<Transaction>) {
        if self.txs.contains_key(&tx.tx) {
            Err(DataStoreError::TxAlreadyExists)
        } else {
            self.txs.insert(tx.tx, tx);
            Ok(tx)
        }
    }

    fn get_account(&mut self, id: ClientID) -> (r: DataStoreResult<Account>) {
        let existing = match self.accounts.get(&id) {
            Some(a) => Some(*a),
            None => None,
        };
        match existing {
            Some(acc) => {
                proof {
                    assert(self.accounts@.insert(id, acc) =~= self.accounts@);
                }
                Ok(acc)
            },
            None => {
                let acc = Account::new(id);
                self.accounts.insert(id, acc);
                Ok(acc)
            },
        }
    }

    fn update_account(&mut self, acc: Account) -> (r: DataStoreResult<()>) {
        self.accounts.insert(acc.client, acc);
        Ok(())
    }

    fn mark_disputed(&mut self, id: TxID) -> (r: DataStoreResult<()>) {
        let existing = match self.txs.get(&id) {
            Some(t) => Some(*t),
            None => None,
        };
        match existing {
            Some(t) => {
                let updated = Transaction { disputed: true, ..t };
                self.txs.insert(id, updated);
                Ok(())
            },
            None => Ok(()),
        }
    }

    fn mark_resolved(&mut self, id: TxID) -> (r: DataStoreResult<()>) {
        let existing = match self.txs.get(&id) {
            Some(t) => Some(*t),
            None => None,
        };
        match existing {
            Some(t) => {
                let updated = Transaction { disputed: false, ..t };
                self.txs.insert(id, updated);
                Ok(())
            },
            None => Ok(()),
        }
    }

    fn get_accounts(&self) -> (r: DataStoreResult<Vec<Account>>) {
        let mut out: Vec<Account> = Vec::new();
        let iter = self.accounts.iter();
        let mut w = VerusForLoopWrapper::new(iter, Ghost(None));
        let ghost all = w.seq();
        loop
            invariant_except_break
                w.wf(),
                w.iter.obeys_prophetic_iter_laws(),
                w.seq() == all,
                out@.len() == w.index(),
                IteratorSpec::decrease(&w.iter) is Some,
            invariant
                forall|i: int| 0 <= i < out@.len() ==> out@[i] == *all[i].1,
            ensures
                out@.len() == all.len(),
            decreases IteratorSpec::decrease(&w.iter)->0,
        {
            match w.next() {
                Some(kv) => {
                    out.push(*kv.1);
                },
                None => {
                    break ;
                },
            }
        }
        proof {
            assert forall|i: int| 0 <= i < out@.len() implies #[trigger] self.accounts@.contains_key(
                out@[i].client,
            ) && out@[i] == self.accounts@[out@[i].client] by {
                assert(self.accounts@.contains_key(*all[i].0) && self.accounts@[*all[i].0]
                    == *all[i].1);
            }
            assert forall|c: ClientID| #[trigger] self.accounts@.contains_key(c) implies exists|
                i: int,
            | 0 <= i < out@.len() && #[trigger] out@[i].client == c by {
                assert(all.contains((&c, &self.accounts@[c])));
                let i = choose|i: int|
                    0 <= i < all.len() && all[i] == (&c, &self.accounts@[c]);
                assert(out@[i] == self.accounts@[c]);
                assert(out@[i].client == c);
            }
        }
        Ok(out)
    }
}

} // verus!
