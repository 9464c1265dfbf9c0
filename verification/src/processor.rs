use crate::domain::datastore::{DataStore, get_or_create_spec};
use crate::domain::processor::{
    apply_spec, chargeback_spec, deposit_spec, dispute_spec, fits_amount,
    lemma_step_preserves_wf, resolve_spec, rule_in_range, state_wf, step_in_range, tx_valid,
    txs_wf, withdrawal_spec, Processor, ProcessorError, ProcessorResult,
};
use crate::model::account::Account;
use crate::model::transaction::{ClientID, Transaction, TxID, TxType};
use vstd::pervasive::unreached;
use vstd::prelude::*;

verus! {

/// The ledger engine over an abstract store: applies one transaction
/// at a time and writes the resulting account back.
pub struct TxProcessor<S: DataStore> {
    /// The store holding all transactions and accounts.
    pub datastore: S,
}

impl<S: DataStore> Processor for TxProcessor<S> {
    open spec fn txs_view(&self) -> Map<TxID, Transaction> {
        self.datastore.txs_view()
    }

    open spec fn accounts_view(&self) -> Map<ClientID, Account> {
        self.datastore.accounts_view()
    }

    open spec fn wf(&self) -> bool {
        self.datastore.inv() && state_wf(self.datastore.txs_view(), self.datastore.accounts_view())
    }

    fn process(&mut self, tx: Transaction) -> (r: ProcessorResult<Account>) {
        let ghost txs0 = self.datastore.txs_view();
        let ghost accs0 = self.datastore.accounts_view();
        proof {
            lemma_step_preserves_wf(txs0, accs0, tx);
        }
        if tx.tx_type == TxType::Deposit || tx.tx_type == TxType::Withdrawal {
            match self.datastore.insert_tx(tx) {
                Ok(_) => {},
                Err(_) => {
                    return Err(ProcessorError::DuplicateTransaction);
                },
            }
        }
        proof {
            assert forall|t: TxID| #[trigger]
                self.datastore.txs_view().contains_key(t) implies self.datastore.txs_view()[t].tx
                == t && crate::domain::datastore::stored_tx_valid(
                self.datastore.txs_view()[t],
            ) by {
                if !txs0.contains_key(t) {
                    assert(t == tx.tx);
                }
            }
        }
        let acc_res = self.datastore.get_account(tx.client);
        let mut acc = match acc_res {
            Ok(a) => a,
            Err(_) => {
                proof {
                    assert(false);
                }
                unreached()
            },
        };
        if acc.locked {
            return Err(ProcessorError::AccountLocked);
        }
        match self.apply(&mut acc, &tx) {
            Ok(_) => {},
            Err(e) => {
                return Err(e);
            },
        }
        let _ = self.datastore.update_account(acc);
        Ok(acc)
    }

    fn accounts(&self) -> (r: ProcessorResult<Vec<Account>>) {
        match self.datastore.get_accounts() {
            Ok(v) => Ok(v),
            Err(_) => {
                proof {
                    assert(false);
                }
                unreached()
            },
        }
    }
}

impl<S: DataStore> TxProcessor<S> {
    /// Creates an engine over the given store.
    pub fn new(datastore: S) -> (r: Self)
        ensures
            r.datastore == datastore,
    {
        Self { datastore }
    }

    /// Returns the stored account of `id`, or the fresh account that
    /// processing would create for it.
    fn current_account(&self, id: ClientID) -> (a: Account)
        requires
            self.datastore.inv(),
        ensures
            a == get_or_create_spec(self.datastore.accounts_view(), id),
    {
        let accs = match self.datastore.get_accounts() {
            Ok(v) => v,
            Err(_) => {
                proof {
                    assert(false);
                }
                unreached()
            },
        };
        let n = accs.len();
        let mut i: usize = 0;
        while i < n
            invariant
                n == accs@.len(),
                i <= n,
                crate::domain::datastore::accounts_snapshot(
                    self.datastore.accounts_view(),
                    accs@,
                ),
                forall|j: int| 0 <= j < i ==> accs@[j].client != id,
            decreases n - i,
        {
            if accs[i].client == id {
                return accs[i];
            }
            i = i + 1;
        }
        proof {
            if self.datastore.accounts_view().contains_key(id) {
                let j = choose|j: int| 0 <= j < accs@.len() && accs@[j].client == id;
                assert(false);
            }
        }
        Account::new(id)
    }

    /// Whether processing `tx` now stays within the fixed-point range,
    /// so that `process` may be called on it. Callers that cannot know
    /// the current balances test this first and treat a `false` as the
    /// fatal arithmetic overflow it is.
    pub fn tx_in_range(&self, tx: &Transaction) -> (b: bool)
        requires
            self.wf(),
            tx_valid(*tx),
        ensures
            b == step_in_range(self.txs_view(), self.accounts_view(), *tx),
    {
        let monetary = tx.tx_type == TxType::Deposit || tx.tx_type == TxType::Withdrawal;
        if monetary {
            match self.datastore.get_tx(tx.tx) {
                Ok(_) => {
                    return true;
                },
                Err(_) => {},
            }
        }
        let acc = self.current_account(tx.client);
        if acc.locked {
            return true;
        }
        match tx.tx_type {
            TxType::Deposit => {
                let amt = match tx.amount {
                    Some(a) => a,
                    None => {
                        proof {
                            assert(false);
                        }
                        unreached()
                    },
                };
                acc.available.checked_add(amt).is_some() && acc.total.checked_add(amt).is_some()
            },
            TxType::Withdrawal => true,
            TxType::Dispute => {
                match self.datastore.get_tx(tx.tx) {
                    Err(_) => true,
                    Ok(orig) => {
                        let amt = match orig.amount {
                            Some(a) => a,
                            None => {
                                proof {
                                    assert(false);
                                }
                                unreached()
                            },
                        };
                        acc.available.checked_sub(amt).is_some() && acc.held.checked_add(
                            amt,
                        ).is_some()
                    },
                }
            },
            TxType::Resolve => {
                match self.datastore.get_tx(tx.tx) {
                    Err(_) => true,
                    Ok(orig) => {
                        let amt = match orig.amount {
                            Some(a) => a,
                            None => {
                                proof {
                                    assert(false);
                                }
                                unreached()
                            },
                        };
                        acc.available.checked_add(amt).is_some() && acc.held.checked_sub(
                            amt,
                        ).is_some()
                    },
                }
            },
            TxType::ChargeBack => {
                match self.datastore.get_tx(tx.tx) {
                    Err(_) => true,
                    Ok(orig) => {
                        let amt = match orig.amount {
                            Some(a) => a,
                            None => {
                                proof {
                                    assert(false);
                                }
                                unreached()
                            },
                        };
                        acc.held.checked_sub(amt).is_some() && acc.total.checked_sub(
                            amt,
                        ).is_some()
                    },
                }
            },
        }
    }

    /// Applies the per-kind balance rule to the working copy of the
    /// account, updating dispute flags in the store as a side effect.
    fn apply(&mut self, acc: &mut Account, tx: &Transaction) -> (r: ProcessorResult<()>)
        requires
            old(self).datastore.inv(),
            txs_wf(old(self).datastore.txs_view()),
            tx_valid(*tx),
            old(acc).balanced(),
            rule_in_range(*old(acc), *tx, old(self).datastore.txs_view()),
        ensures
            final(self).datastore.inv(),
            final(self).datastore.accounts_view() == old(self).datastore.accounts_view(),
            ({
                let (a2, t2, res) = apply_spec(*old(acc), *tx, old(self).datastore.txs_view());
                *final(acc) == a2 && final(self).datastore.txs_view() == t2 && r == res
            }),
    {
        match tx.tx_type {
            TxType::Deposit => self.deposit(acc, tx),
            TxType::Withdrawal => self.withdrawal(acc, tx),
            TxType::Dispute => self.dispute(acc, tx),
            TxType::Resolve => self.resolve(acc, tx),
            TxType::ChargeBack => self.chargeback(acc, tx),
        }
    }

    /// Adds the deposited amount to the available and total funds.
    pub fn deposit(&self, account: &mut Account, tx: &Transaction) -> (r: ProcessorResult<()>)
        requires
            tx.amount is Some,
            tx.amount->0 >= 0,
            fits_amount(old(account).available + tx.amount->0),
            fits_amount(old(account).total + tx.amount->0),
        ensures
            *final(account) == deposit_spec(*old(account), tx.amount->0),
            r == Ok::<(), ProcessorError>(()),
    {
        let amt = match tx.amount {
            Some(a) => a,
            None => {
                proof {
                    assert(false);
                }
                unreached()
            },
        };
        account.available = account.available + amt;
        account.total = account.total + amt;
        Ok(())
    }

    /// Removes the withdrawn amount from the available and total
    /// funds; fails with `NoFunds`, mutating nothing, when the
    /// available funds fall short.
    pub fn withdrawal(&self, account: &mut Account, tx: &Transaction) -> (r: ProcessorResult<()>)
        requires
            tx.amount is Some,
            tx.amount->0 >= 0,
            old(account).balanced(),
        ensures
            (*final(account), r) == withdrawal_spec(*old(account), tx.amount->0),
    {
        let amt = match tx.amount {
            Some(a) => a,
            None => {
                proof {
                    assert(false);
                }
                unreached()
            },
        };
        if account.available < amt {
            return Err(ProcessorError::NoFunds);
        }
        account.available = account.available - amt;
        account.total = account.total - amt;
        Ok(())
    }

    /// Moves the amount of the referenced stored transaction from
    /// available to held and flags it disputed; a silent no-op when the
    /// reference is unknown.
    pub fn dispute(&mut self, account: &mut Account, tx: &Transaction) -> (r: ProcessorResult<()>)
        requires
            old(self).datastore.inv(),
            txs_wf(old(self).datastore.txs_view()),
            (old(self).datastore.txs_view().contains_key(tx.tx) ==> {
                let a = old(self).datastore.txs_view()[tx.tx].amount->0;
                fits_amount(old(account).available - a) && fits_amount(old(account).held + a)
            }),
        ensures
            final(self).datastore.inv(),
            final(self).datastore.accounts_view() == old(self).datastore.accounts_view(),
            ({
                let (a2, t2) = dispute_spec(
                    *old(account),
                    old(self).datastore.txs_view(),
                    tx.tx,
                );
                *final(account) == a2 && final(self).datastore.txs_view() == t2
            }),
            r == Ok::<(), ProcessorError>(()),
    {
        match self.datastore.get_tx(tx.tx) {
            Err(_) => Ok(()),
            Ok(orig) => {
                let amt = match orig.amount {
                    Some(a) => a,
                    None => {
                        proof {
                            assert(false);
                        }
                        unreached()
                    },
                };
                account.available = account.available - amt;
                account.held = account.held + amt;
                let _ = self.datastore.mark_disputed(tx.tx);
                Ok(())
            },
        }
    }

    /// Moves the amount of the referenced stored transaction back from
    /// held to available and clears its dispute flag; a silent no-op
    /// when the reference is unknown.
    pub fn resolve(&mut self, account: &mut Account, tx: &Transaction) -> (r: ProcessorResult<()>)
        requires
            old(self).datastore.inv(),
            txs_wf(old(self).datastore.txs_view()),
            (old(self).datastore.txs_view().contains_key(tx.tx) ==> {
                let a = old(self).datastore.txs_view()[tx.tx].amount->0;
                fits_amount(old(account).available + a) && fits_amount(old(account).held - a)
            }),
        ensures
            final(self).datastore.inv(),
            final(self).datastore.accounts_view() == old(self).datastore.accounts_view(),
            ({
                let (a2, t2) = resolve_spec(
                    *old(account),
                    old(self).datastore.txs_view(),
                    tx.tx,
                );
                *final(account) == a2 && final(self).datastore.txs_view() == t2
            }),
            r == Ok::<(), ProcessorError>(()),
    {
        match self.datastore.get_tx(tx.tx) {
            Err(_) => Ok(()),
            Ok(orig) => {
                let amt = match orig.amount {
                    Some(a) => a,
                    None => {
                        proof {
                            assert(false);
                        }
                        unreached()
                    },
                };
                account.available = account.available + amt;
                account.held = account.held - amt;
                let _ = self.datastore.mark_resolved(tx.tx);
                Ok(())
            },
        }
    }

    /// Withdraws the held amount of the referenced stored transaction,
    /// locks the account and clears the dispute flag; a silent no-op
    /// when the reference is unknown.
    pub fn chargeback(&mut self, account: &mut Account, tx: &Transaction) -> (r: ProcessorResult<
        (),
    >)
        requires
            old(self).datastore.inv(),
            txs_wf(old(self).datastore.txs_view()),
            (old(self).datastore.txs_view().contains_key(tx.tx) ==> {
                let a = old(self).datastore.txs_view()[tx.tx].amount->0;
                fits_amount(old(account).held - a) && fits_amount(old(account).total - a)
            }),
        ensures
            final(self).datastore.inv(),
            final(self).datastore.accounts_view() == old(self).datastore.accounts_view(),
            ({
                let (a2, t2) = chargeback_spec(
                    *old(account),
                    old(self).datastore.txs_view(),
                    tx.tx,
                );
                *final(account) == a2 && final(self).datastore.txs_view() == t2
            }),
            r == Ok::<(), ProcessorError>(()),
    {
        match self.datastore.get_tx(tx.tx) {
            Err(_) => Ok(()),
            Ok(orig) => {
                let amt = match orig.amount {
                    Some(a) => a,
                    None => {
                        proof {
                            assert(false);
                        }
                        unreached()
                    },
                };
                account.held = account.held - amt;
                account.total = account.total - amt;
                account.locked = true;
                let _ = self.datastore.mark_resolved(tx.tx);
                Ok(())
            },
        }
    }
}

} // verus!
