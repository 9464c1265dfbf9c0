use crate::model::transaction::{Amount, ClientID};
use vstd::prelude::*;

verus! {

/// Per-client balance state.
#[derive(Debug, Clone, Copy, PartialEq)]
pub struct Account {
    /// Owning client; unique key of the account, immutable after creation.
    pub client: ClientID,
    /// Funds the client may withdraw.
    pub available: Amount,
    /// Funds frozen pending dispute resolution.
    pub held: Amount,
    /// Sum of available and held funds.
    pub total: Amount,
    /// Once true, the account rejects all further balance mutations.
    pub locked: bool,
}

impl Account {
    /// The zero-balance, unlocked account of the given client.
    pub open spec fn new_spec(id: ClientID) -> Account {
        Account { client: id, available: 0, held: 0, total: 0, locked: false }
    }

    /// Creates the zero-balance, unlocked account of the given client.
    pub fn new(id: ClientID) -> (r: Self)
        ensures
            r == Account::new_spec(id),
    {
        Account { client: id, available: 0, held: 0, total: 0, locked: false }
    }

    /// Bookkeeping invariant: the total is exactly the available funds
    /// plus the held funds.
    pub open spec fn balanced(self) -> bool {
        self.total == self.available + self.held
    }
}

} // verus!
