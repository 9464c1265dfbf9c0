//! Shared data model: transactions and accounts.

pub mod account;
pub mod transaction;
