//! The mathematical model of a bank: what it holds, and what each request
//! makes of it.

use vstd::prelude::*;
use crate::account::Account;
use crate::error::BankError;

verus! {

/// A request that may change a bank.
pub enum Request<B> {
    /// Store this account.
    Add(Account<B>),
    /// Take out the account under this identifier.
    Remove(u32),
    /// Set the balance of the account under this identifier.
    UpdateBalance(u32, B),
    /// Borrow the account under this identifier and leave this account in
    /// its place.
    Edit(u32, Account<B>),
}

impl<B> Request<B> {
    /// The request leaves an account only under the identifier that the
    /// account bears. Every request does but an edit that rewrites the
    /// identifier inside the borrowed account.
    pub open spec fn keeps_id(self) -> bool {
        self matches Request::Edit(id, account) ==> account.id == id
    }
}

/// What a bank is, as a value: the stored accounts by identifier, and the
/// identifier that the next automatic assignment will hand out.
pub struct BankState<B> {
    pub accounts: Map<u32, Account<B>>,
    pub next_id: u32,
}

impl<B> BankState<B> {
    /// The state of a bank that was just opened.
    pub open spec fn empty() -> Self {
        BankState { accounts: Map::empty(), next_id: 1 }
    }

    /// Every stored account sits under its own identifier, zero is never a
    /// stored identifier, and the counter has not fallen back to zero.
    pub open spec fn wf(self) -> bool {
        &&& self.accounts.dom().finite()
        &&& !self.accounts.contains_key(0)
        &&& self.next_id >= 1
        &&& forall|id: u32| #[trigger]
            self.accounts.contains_key(id) ==> self.accounts[id].id == id
    }

    /// `listed` holds every stored account once: it goes through the stored
    /// identifiers in some order, none of them twice, and holds the account
    /// under each.
    pub open spec fn lists(self, listed: Seq<Account<B>>) -> bool {
        exists|ids: Seq<u32>| #[trigger]
            self.lists_along(ids, listed)
    }

    /// `listed` holds the accounts under `ids`, in that order, and `ids`
    /// holds every stored identifier once.
    pub open spec fn lists_along(self, ids: Seq<u32>, listed: Seq<Account<B>>) -> bool {
        &&& ids.no_duplicates()
        &&& ids.to_set() == self.accounts.dom()
        &&& listed.len() == ids.len()
        &&& forall|i: int| 0 <= i < ids.len() ==> listed[i] == self.accounts[#[trigger] ids[i]]
    }

    /// The identifier under which `account` would be stored: its own, or the
    /// counter's where its own is zero.
    pub open spec fn issued_id(self, account: Account<B>) -> u32 {
        if account.id == 0 {
            self.next_id
        } else {
            account.id
        }
    }

    /// The counter can still hand out an identifier to `account`, should it
    /// need one.
    pub open spec fn can_issue(self, account: Account<B>) -> bool {
        account.id == 0 ==> self.next_id < u32::MAX
    }

    /// The state after a request to add `account`.
    pub open spec fn after_add(self, account: Account<B>) -> Self {
        let id = self.issued_id(account);
        BankState {
            accounts: if self.accounts.contains_key(id) {
                self.accounts
            } else {
                self.accounts.insert(id, account.with_id(id))
            },
            next_id: if account.id == 0 {
                (self.next_id + 1) as u32
            } else {
                self.next_id
            },
        }
    }

    /// What a request to add `account` answers.
    pub open spec fn add_outcome(self, account: Account<B>) -> Result<u32, BankError> {
        let id = self.issued_id(account);
        if self.accounts.contains_key(id) {
            Err(BankError::DuplicateId(id))
        } else {
            Ok(id)
        }
    }

    /// The state after a request to remove the account under `id`.
    pub open spec fn after_remove(self, id: u32) -> Self {
        BankState { accounts: self.accounts.remove(id), next_id: self.next_id }
    }

    /// What a request to remove the account under `id` answers.
    pub open spec fn remove_outcome(self, id: u32) -> Result<Account<B>, BankError> {
        if self.accounts.contains_key(id) {
            Ok(self.accounts[id])
        } else {
            Err(BankError::NotFound(id))
        }
    }

    /// The state after the account under `id` was borrowed and `account`
    /// left in its place; the same state where nothing is stored under
    /// `id`.
    pub open spec fn after_edit(self, id: u32, account: Account<B>) -> Self {
        if self.accounts.contains_key(id) {
            BankState { accounts: self.accounts.insert(id, account), next_id: self.next_id }
        } else {
            self
        }
    }

    /// The state after a request to set the balance of the account under
    /// `id` to `balance`.
    pub open spec fn after_update(self, id: u32, balance: B) -> Self {
        self.after_edit(id, self.accounts[id].with_balance(balance))
    }

    /// What a request to set the balance of the account under `id` answers.
    pub open spec fn update_outcome(self, id: u32) -> Result<(), BankError> {
        if self.accounts.contains_key(id) {
            Ok(())
        } else {
            Err(BankError::NotFound(id))
        }
    }

    /// The bank can take `request`: the one thing it cannot do is hand out
    /// an identifier once the counter is spent.
    pub open spec fn accepts(self, request: Request<B>) -> bool {
        match request {
            Request::Add(account) => self.can_issue(account),
            Request::Remove(_) => true,
            Request::UpdateBalance(_, _) => true,
            Request::Edit(_, _) => true,
        }
    }

    /// The state after `request`.
    pub open spec fn step(self, request: Request<B>) -> Self {
        match request {
            Request::Add(account) => self.after_add(account),
            Request::Remove(id) => self.after_remove(id),
            Request::UpdateBalance(id, balance) => self.after_update(id, balance),
            Request::Edit(id, account) => self.after_edit(id, account),
        }
    }

    /// `request` is answered with `Ok`.
    pub open spec fn succeeds(self, request: Request<B>) -> bool {
        match request {
            Request::Add(account) => self.add_outcome(account) is Ok,
            Request::Remove(id) => self.remove_outcome(id) is Ok,
            Request::UpdateBalance(id, _) => self.update_outcome(id) is Ok,
            Request::Edit(id, _) => self.accounts.contains_key(id),
        }
    }

    /// The state after all of `requests`, made in order.
    pub open spec fn run(self, requests: Seq<Request<B>>) -> Self
        decreases requests.len(),
    {
        if requests.len() == 0 {
            self
        } else {
            self.run(requests.drop_last()).step(requests.last())
        }
    }

    /// The bank can take each of `requests` when its turn comes.
    pub open spec fn accepts_all(self, requests: Seq<Request<B>>) -> bool {
        forall|i: int|
            0 <= i < requests.len() ==> #[trigger] self.run(requests.take(i)).accepts(requests[i])
    }

    /// How many of `requests` are requests to add an account that succeed.
    pub open spec fn added(self, requests: Seq<Request<B>>) -> nat
        decreases requests.len(),
    {
        if requests.len() == 0 {
            0
        } else {
            let before = self.run(requests.drop_last());
            let last = requests.last();
            self.added(requests.drop_last()) + if last is Add && before.succeeds(last) {
                1nat
            } else {
                0nat
            }
        }
    }

    /// How many of `requests` are requests to remove an account that
    /// succeed.
    pub open spec fn removed(self, requests: Seq<Request<B>>) -> nat
        decreases requests.len(),
    {
        if requests.len() == 0 {
            0
        } else {
            let before = self.run(requests.drop_last());
            let last = requests.last();
            self.removed(requests.drop_last()) + if last is Remove && before.succeeds(last) {
                1nat
            } else {
                0nat
            }
        }
    }
}

} // verus!
