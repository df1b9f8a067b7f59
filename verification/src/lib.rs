//! A small in-memory bank ledger whose accounts have unique identifiers,
//! and, beside it, the overview lines of a course catalog.
//!
//! [`bank::Bank`] is the ledger. What it holds is a [`state::BankState`],
//! and each of its operations is specified by what it makes of that state;
//! [`laws`] proves what follows for every sequence of requests.

pub mod account;
pub mod bank;
pub mod catalog;
pub mod error;
pub mod laws;
pub mod state;

pub use account::Account;
pub use bank::Bank;
pub use error::BankError;
