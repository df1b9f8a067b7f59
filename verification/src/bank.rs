//! The bank: a store of accounts that keeps their identifiers unique.

use vstd::prelude::*;
use std::collections::HashMap;
use std::collections::hash_map::Entry;
use crate::account::Account;
use crate::error::BankError;
use crate::state::BankState;

verus! {

/// An in-memory store of accounts, each under its own identifier.
///
/// Its value, `bank@`, is a [`BankState`]; every operation says what it
/// makes of that state and what it answers.
#[derive(Debug)]
pub struct Bank<B> {
    accounts: HashMap<u32, Account<B>>,
    next_id: u32,
}

impl<B> View for Bank<B> {
    type V = BankState<B>;

    closed spec fn view(&self) -> BankState<B> {
        BankState { accounts: self.accounts@, next_id: self.next_id }
    }
}

impl<B> Bank<B> {
    /// Opens an empty bank whose first automatic identifier will be 1.
    pub fn new() -> (bank: Self)
        ensures
            bank@ == BankState::<B>::empty(),
            bank@.wf(),
    {
        Bank { accounts: HashMap::new(), next_id: 1 }
    }

    /// A bank never holds more than finitely many accounts.
    pub proof fn stored_is_finite(&self)
        ensures
            self@.accounts.dom().finite(),
    {
    }

    /// The identifier that the next automatic assignment will hand out.
    pub fn next_id(&self) -> (id: u32)
        ensures
            id == self@.next_id,
    {
        self.next_id
    }

    /// Stores `account` and answers the identifier it is stored under: its
    /// own or, where that is zero, the next automatic one, which is then
    /// spent whatever the answer. Where the identifier is taken, the answer
    /// is `DuplicateId` and every stored account stays as it was.
    pub fn add_account(&mut self, account: Account<B>) -> (result: Result<u32, BankError>)
        requires
            old(self)@.can_issue(account),
        ensures
            final(self)@ == old(self)@.after_add(account),
            result == old(self)@.add_outcome(account),
            old(self)@.wf() ==> final(self)@.wf(),
    {
        let mut account = account;
        if account.id == 0 {
            account.id = self.next_id;
            self.next_id += 1;
        }
        if self.accounts.contains_key(&account.id) {
            return Err(BankError::DuplicateId(account.id));
        }
        let account_id = account.id;
        self.accounts.insert(account_id, account);
        Ok(account_id)
    }

    /// Takes the account under `account_id` out of the bank and hands it to
    /// the caller; `NotFound` where there is none. The counter of automatic
    /// identifiers stays where it is, so none is handed out twice.
    pub fn remove_account(&mut self, account_id: u32) -> (result: Result<Account<B>, BankError>)
        ensures
            final(self)@ == old(self)@.after_remove(account_id),
            result == old(self)@.remove_outcome(account_id),
            old(self)@.wf() ==> final(self)@.wf(),
    {
        self.accounts.remove(&account_id).ok_or(BankError::NotFound(account_id))
    }

    /// Looks up the account under `account_id`.
    pub fn get_account(&self, account_id: u32) -> (result: Option<&Account<B>>)
        ensures
            match result {
                Some(account) => self@.accounts.contains_key(account_id)
                    && *account == self@.accounts[account_id],
                None => !self@.accounts.contains_key(account_id),
            },
    {
        self.accounts.get(&account_id)
    }

    /// Lends out the account under `account_id` for changes. Whatever the
    /// caller leaves in it is what the bank then holds under `account_id`;
    /// the bank stays well formed as long as the account keeps its
    /// identifier.
    pub fn get_account_mut(&mut self, account_id: u32) -> (result: Option<&mut Account<B>>)
        ensures
            match result {
                Some(account) => {
                    &&& old(self)@.accounts.contains_key(account_id)
                    &&& *account == old(self)@.accounts[account_id]
                    &&& final(self)@ == old(self)@.after_edit(account_id, *final(account))
                    &&& old(self)@.wf() && final(account).id == account_id ==> final(self)@.wf()
                },
                None => !old(self)@.accounts.contains_key(account_id) && final(self)@ == old(
                    self,
                )@,
            },
    {
        match self.accounts.entry(account_id) {
            Entry::Occupied(entry) => Some(entry.into_mut()),
            Entry::Vacant(_) => {
                assert(old(self)@.accounts.remove(account_id) =~= old(self)@.accounts);
                None
            },
        }
    }

    /// Lists every stored account once, in no particular order.
    pub fn list_accounts(&self) -> (result: Vec<&Account<B>>)
        ensures
            self@.lists(result@.unref()),
            result@.len() == self@.accounts.len(),
            self@.wf() ==> forall|i: int|
                0 <= i < result@.len() ==> self@.accounts.contains_key(#[trigger] result@[i].id)
                    && self@.accounts[result@[i].id] == *result@[i],
            self@.wf() ==> forall|i: int, j: int|
                0 <= i < j < result@.len() ==> result@[i].id != result@[j].id,
    {
        let mut listed: Vec<&Account<B>> = Vec::new();
        let ghost mut ids: Seq<u32> = Seq::empty();
        for entry in it: self.accounts.iter()
            invariant
                it.seq().no_duplicates(),
                it.seq().len() == self.accounts@.len(),
                forall|i: int|
                    0 <= i < it.seq().len() ==> self.accounts@.contains_key(
                        #[trigger] *it.seq()[i].0,
                    ) && self.accounts@[*it.seq()[i].0] == *it.seq()[i].1,
                ids.len() == it.index(),
                listed@.len() == it.index(),
                forall|i: int|
                    0 <= i < ids.len() ==> #[trigger] ids[i] == *it.seq()[i].0 && listed@[i]
                        == it.seq()[i].1,
        {
            proof {
                ids = ids.push(*entry.0);
            }
            listed.push(entry.1);
        }
        proof {
            let stored = listed@.unref();
            assert(self@.lists_along(ids, stored)) by {
                ids.unique_seq_to_set();
                vstd::set_lib::lemma_subset_equality(ids.to_set(), self@.accounts.dom());
            }
            if self@.wf() {
                // in a well-formed bank the account under an identifier bears it
                assert forall|i: int| 0 <= i < listed@.len() implies #[trigger] listed@[i].id
                    == ids[i] by {
                    assert(stored[i] == self@.accounts[ids[i]]);
                }
            }
        }
        listed
    }

    /// Sets the balance of the account under `account_id` to `new_balance`,
    /// whatever it was and whatever it is to be; `NotFound` where there is
    /// no such account.
    pub fn update_balance(&mut self, account_id: u32, new_balance: B) -> (result: Result<
        (),
        BankError,
    >)
        ensures
            final(self)@ == old(self)@.after_update(account_id, new_balance),
            result == old(self)@.update_outcome(account_id),
            old(self)@.wf() ==> final(self)@.wf(),
    {
        match self.get_account_mut(account_id) {
            Some(account) => {
                account.balance = new_balance;
                Ok(())
            },
            None => Err(BankError::NotFound(account_id)),
        }
    }
}

} // verus!
