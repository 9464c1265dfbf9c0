use vstd::prelude::*;

verus! {

/// Identifier of a transaction (unique among deposits and withdrawals).
pub type TxID = u32;

/// Identifier of a client account.
pub type ClientID = u16;

/// A monetary amount in exact fixed-point form: a signed count of
/// 1/10_000 currency units, so the four displayed fractional digits
/// carry no rounding drift.
pub type Amount = i64;

/// Number of fixed-point steps in one currency unit (four fractional
/// digits).
pub const AMOUNT_SCALE: i64 = 10000;

/// The kinds of ledger events.
#[derive(Debug, Clone, Copy, PartialEq, Eq, Structural)]
pub enum TxType {
    /// Add funds to an account.
    Deposit,
    /// Remove funds from an account.
    Withdrawal,
    /// Freeze the funds of a referenced deposit or withdrawal.
    Dispute,
    /// Release funds frozen by a dispute.
    Resolve,
    /// Withdraw disputed funds and lock the account.
    ChargeBack,
}

/// One ledger event, immutable but for its `disputed` flag.
#[derive(Debug, Clone, Copy, PartialEq)]
pub struct Transaction {
    /// Kind of event.
    pub tx_type: TxType,
    /// The account this event belongs to.
    pub client: ClientID,
    /// Identity of this event for deposits and withdrawals; for the
    /// dispute family, the identity of the referenced transaction.
    pub tx: TxID,
    /// Amount moved; present for deposits and withdrawals only.
    pub amount: Option<Amount>,
    /// Whether this stored transaction is currently under dispute.
    pub disputed: bool,
}

/// The default transaction: a zero-amount deposit by client 0.
pub open spec fn default_transaction() -> Transaction {
    Transaction {
        tx_type: TxType::Deposit,
        client: 0,
        tx: 0,
        amount: Some(0),
        disputed: false,
    }
}

impl Default for Transaction {
    fn default() -> (r: Self)
        ensures
            r == default_transaction(),
    {
        Transaction {
            tx_type: TxType::Deposit,
            client: 0,
            tx: 0,
            amount: Some(0),
            disputed: false,
        }
    }
}

} // verus!
