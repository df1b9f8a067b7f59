//! The record that the ledger stores.

use vstd::prelude::*;

verus! {

/// One ledger entry. `B` is the type of the balance; the ledger stores and
/// hands back balances without ever computing on them.
///
/// An `id` of zero means "not assigned yet": the bank replaces it with a
/// fresh identifier when the account is added.
#[derive(Debug, Clone)]
pub struct Account<B> {
    pub id: u32,
    pub name: String,
    pub balance: B,
}

impl<B> Account<B> {
    /// Builds an account from its three fields.
    pub fn new(id: u32, name: String, balance: B) -> (account: Self)
        ensures
            account == (Account { id, name, balance }),
    {
        Account { id, name, balance }
    }

    /// This account under another identifier.
    pub open spec fn with_id(self, id: u32) -> Self {
        Account { id, name: self.name, balance: self.balance }
    }

    /// This account with another balance.
    pub open spec fn with_balance(self, balance: B) -> Self {
        Account { id: self.id, name: self.name, balance }
    }
}

} // verus!
