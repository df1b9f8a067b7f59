//! The two ways in which a request to the bank can fail, and how each is
//! put in words.

use vstd::prelude::*;
use vstd::string::StringExecFns;

verus! {

/// Why the bank turned a request down. Each variant carries the identifier
/// that the request was about.
#[derive(Debug, Clone, Copy, PartialEq, Eq, Structural)]
pub enum BankError {
    /// An account with this identifier is already stored.
    DuplicateId(u32),
    /// No account with this identifier is stored.
    NotFound(u32),
}

/// The character for a single decimal digit.
pub open spec fn digit(d: nat) -> char {
    if d == 0 {
        '0'
    } else if d == 1 {
        '1'
    } else if d == 2 {
        '2'
    } else if d == 3 {
        '3'
    } else if d == 4 {
        '4'
    } else if d == 5 {
        '5'
    } else if d == 6 {
        '6'
    } else if d == 7 {
        '7'
    } else if d == 8 {
        '8'
    } else {
        '9'
    }
}

/// A number as it is written in decimal, without leading zeros.
pub open spec fn decimal(n: nat) -> Seq<char>
    decreases n,
{
    if n < 10 {
        seq![digit(n)]
    } else {
        decimal(n / 10).push(digit(n % 10))
    }
}

/// The text of a single decimal digit.
fn digit_text(d: u32) -> (text: &'static str)
    requires
        d < 10,
    ensures
        text@ == seq![digit(d as nat)],
{
    proof {
        reveal_strlit("0");
        reveal_strlit("1");
        reveal_strlit("2");
        reveal_strlit("3");
        reveal_strlit("4");
        reveal_strlit("5");
        reveal_strlit("6");
        reveal_strlit("7");
        reveal_strlit("8");
        reveal_strlit("9");
    }
    match d {
        0 => "0",
        1 => "1",
        2 => "2",
        3 => "3",
        4 => "4",
        5 => "5",
        6 => "6",
        7 => "7",
        8 => "8",
        _ => "9",
    }
}

/// Writes `n` in decimal.
fn decimal_text(n: u32) -> (text: String)
    ensures
        text@ == decimal(n as nat),
    decreases n,
{
    if n < 10 {
        String::from_str(digit_text(n))
    } else {
        let mut text = decimal_text(n / 10);
        text.append(digit_text(n % 10));
        text
    }
}

impl BankError {
    /// What [`BankError::message`] reads.
    pub open spec fn message_text(self) -> Seq<char> {
        match self {
            BankError::DuplicateId(id) => "Account with ID "@ + decimal(id as nat)
                + " already exists"@,
            BankError::NotFound(id) => "Account with ID "@ + decimal(id as nat) + " not found"@,
        }
    }

    /// The error in words, for a person to read.
    pub fn message(&self) -> (text: String)
        ensures
            text@ == self.message_text(),
    {
        let mut text = String::from_str("Account with ID ");
        match self {
            BankError::DuplicateId(id) => {
                text.append(decimal_text(*id).as_str());
                text.append(" already exists");
            },
            BankError::NotFound(id) => {
                text.append(decimal_text(*id).as_str());
                text.append(" not found");
            },
        }
        text
    }
}

} // verus!
