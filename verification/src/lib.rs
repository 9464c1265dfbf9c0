//! A small payments ledger: per-client account balances derived from a
//! stream of transactions (deposit, withdrawal, dispute, resolve,
//! chargeback), backed by an abstract keyed store.

pub mod datastore;
pub mod domain;
pub mod model;
pub mod processor;
