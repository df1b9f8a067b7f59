use ledger::account::Account;
use ledger::bank::Bank;
use ledger::error::BankError;

fn alice() -> Account<f64> {
    Account::new(0, "Alice".to_string(), 1000.0)
}

fn bob() -> Account<f64> {
    Account::new(0, "Bob".to_string(), 2000.0)
}

#[test]
fn account_new_keeps_its_fields() {
    let account = Account::new(7, "Carol".to_string(), -12.5);
    assert_eq!(account.id, 7);
    assert_eq!(account.name, "Carol");
    assert_eq!(account.balance, -12.5);
}

#[test]
fn new_bank_is_empty_and_starts_at_one() {
    let bank: Bank<f64> = Bank::new();
    assert_eq!(bank.list_accounts().len(), 0);
    assert_eq!(bank.next_id(), 1);
    assert!(bank.get_account(1).is_none());
}

#[test]
fn worked_example() {
    let mut bank = Bank::new();
    assert_eq!(bank.add_account(alice()), Ok(1));
    assert_eq!(bank.add_account(bob()), Ok(2));
    assert_eq!(bank.update_balance(1, 1500.0), Ok(()));

    let removed = bank.remove_account(2).unwrap();
    assert_eq!(removed.id, 2);
    assert_eq!(removed.name, "Bob");
    assert_eq!(removed.balance, 2000.0);

    let all = bank.list_accounts();
    assert_eq!(all.len(), 1);
    assert_eq!(all[0].id, 1);
    assert_eq!(all[0].name, "Alice");
    assert_eq!(all[0].balance, 1500.0);

    assert!(bank.get_account(2).is_none());
    assert_eq!(
        bank.add_account(Account::new(1, "Mallory".to_string(), 0.0)),
        Err(BankError::DuplicateId(1))
    );
}

#[test]
fn automatic_ids_increase_and_never_repeat() {
    let mut bank = Bank::new();
    let mut issued = Vec::new();
    for round in 0..20u32 {
        let id = bank
            .add_account(Account::new(0, format!("holder {}", round), 1.0))
            .unwrap();
        issued.push(id);
        if round % 3 == 0 {
            // removing an earlier account must not free its identifier
            bank.remove_account(id).unwrap();
        }
    }
    for pair in issued.windows(2) {
        assert!(pair[0] < pair[1]);
    }
    assert_eq!(issued[0], 1);
    assert_eq!(issued[19], 20);
    assert_eq!(bank.next_id(), 21);
}

#[test]
fn removed_automatic_id_is_not_reused() {
    let mut bank = Bank::new();
    assert_eq!(bank.add_account(alice()), Ok(1));
    bank.remove_account(1).unwrap();
    assert_eq!(bank.add_account(bob()), Ok(2));
    assert!(bank.get_account(1).is_none());
}

#[test]
fn explicit_id_is_kept_and_leaves_the_counter() {
    let mut bank = Bank::new();
    assert_eq!(bank.add_account(Account::new(42, "Dan".to_string(), 5.0)), Ok(42));
    assert_eq!(bank.next_id(), 1);
    let stored = bank.get_account(42).unwrap();
    assert_eq!(stored.id, 42);
    assert_eq!(stored.name, "Dan");
    assert_eq!(stored.balance, 5.0);
    assert_eq!(bank.add_account(alice()), Ok(1));
    assert_eq!(bank.next_id(), 2);
}

#[test]
fn automatic_id_is_written_into_the_account() {
    let mut bank = Bank::new();
    assert_eq!(bank.add_account(alice()), Ok(1));
    assert_eq!(bank.get_account(1).unwrap().id, 1);
}

#[test]
fn duplicate_explicit_id_is_refused_and_changes_nothing() {
    let mut bank = Bank::new();
    assert_eq!(bank.add_account(alice()), Ok(1));
    assert_eq!(bank.add_account(bob()), Ok(2));
    let refused = bank.add_account(Account::new(2, "Impostor".to_string(), 9.0));
    assert_eq!(refused, Err(BankError::DuplicateId(2)));
    let kept = bank.get_account(2).unwrap();
    assert_eq!(kept.id, 2);
    assert_eq!(kept.name, "Bob");
    assert_eq!(kept.balance, 2000.0);
    assert_eq!(bank.list_accounts().len(), 2);
    assert_eq!(bank.next_id(), 3);
}

#[test]
fn automatic_id_that_meets_an_explicit_one_is_spent() {
    let mut bank = Bank::new();
    assert_eq!(bank.add_account(Account::new(1, "Early".to_string(), 3.0)), Ok(1));
    // the counter still stands at 1, which is taken
    assert_eq!(bank.add_account(alice()), Err(BankError::DuplicateId(1)));
    assert_eq!(bank.next_id(), 2);
    assert_eq!(bank.get_account(1).unwrap().name, "Early");
    assert_eq!(bank.list_accounts().len(), 1);
    assert_eq!(bank.add_account(alice()), Ok(2));
}

#[test]
fn remove_then_get_is_absent() {
    let mut bank = Bank::new();
    assert_eq!(bank.add_account(alice()), Ok(1));
    assert!(bank.remove_account(1).is_ok());
    assert!(bank.get_account(1).is_none());
    assert!(bank.get_account_mut(1).is_none());
}

#[test]
fn remove_of_absent_id_is_not_found() {
    let mut bank = Bank::new();
    assert_eq!(bank.add_account(alice()), Ok(1));
    let missing = bank.remove_account(5);
    assert_eq!(missing.err(), Some(BankError::NotFound(5)));
    assert_eq!(bank.list_accounts().len(), 1);
    // a second removal of the same account finds nothing
    assert!(bank.remove_account(1).is_ok());
    assert_eq!(bank.remove_account(1).err(), Some(BankError::NotFound(1)));
    assert_eq!(bank.next_id(), 2);
}

#[test]
fn update_of_absent_id_is_not_found_and_changes_nothing() {
    let mut bank = Bank::new();
    assert_eq!(bank.add_account(alice()), Ok(1));
    assert_eq!(bank.update_balance(9, 1.0), Err(BankError::NotFound(9)));
    assert_eq!(bank.list_accounts().len(), 1);
    assert_eq!(bank.get_account(1).unwrap().balance, 1000.0);
    assert!(bank.get_account(9).is_none());
    assert_eq!(bank.next_id(), 2);
}

#[test]
fn update_is_idempotent() {
    let mut bank = Bank::new();
    assert_eq!(bank.add_account(alice()), Ok(1));
    assert_eq!(bank.update_balance(1, 250.75), Ok(()));
    assert_eq!(bank.get_account(1).unwrap().balance, 250.75);
    assert_eq!(bank.update_balance(1, 250.75), Ok(()));
    let stored = bank.get_account(1).unwrap();
    assert_eq!(stored.balance, 250.75);
    assert_eq!(stored.id, 1);
    assert_eq!(stored.name, "Alice");
}

#[test]
fn update_takes_any_balance() {
    let mut bank = Bank::new();
    assert_eq!(bank.add_account(alice()), Ok(1));
    assert_eq!(bank.update_balance(1, -3000.5), Ok(()));
    assert_eq!(bank.get_account(1).unwrap().balance, -3000.5);
    assert_eq!(bank.update_balance(1, 0.0), Ok(()));
    assert_eq!(bank.get_account(1).unwrap().balance, 0.0);
}

#[test]
fn get_account_mut_changes_the_stored_account() {
    let mut bank = Bank::new();
    assert_eq!(bank.add_account(alice()), Ok(1));
    assert_eq!(bank.add_account(bob()), Ok(2));
    {
        let account = bank.get_account_mut(1).unwrap();
        account.name = "Alicia".to_string();
        account.balance = 10.0;
    }
    let stored = bank.get_account(1).unwrap();
    assert_eq!(stored.name, "Alicia");
    assert_eq!(stored.balance, 10.0);
    let other = bank.get_account(2).unwrap();
    assert_eq!(other.name, "Bob");
    assert_eq!(other.balance, 2000.0);
    assert_eq!(bank.list_accounts().len(), 2);
}

#[test]
fn rewriting_the_identifier_in_a_borrowed_account_does_not_move_it() {
    let mut bank = Bank::new();
    assert_eq!(bank.add_account(alice()), Ok(1));
    bank.get_account_mut(1).unwrap().id = 5;
    // the account is still found where it was stored, and only there
    assert_eq!(bank.get_account(1).unwrap().id, 5);
    assert_eq!(bank.get_account(1).unwrap().name, "Alice");
    assert!(bank.get_account(5).is_none());
    assert_eq!(bank.update_balance(5, 1.0), Err(BankError::NotFound(5)));
    assert_eq!(bank.list_accounts().len(), 1);
    let removed = bank.remove_account(1).unwrap();
    assert_eq!(removed.id, 5);
    assert_eq!(bank.list_accounts().len(), 0);
}

#[test]
fn get_account_mut_of_absent_id_changes_nothing() {
    let mut bank = Bank::new();
    assert_eq!(bank.add_account(alice()), Ok(1));
    assert!(bank.get_account_mut(2).is_none());
    assert_eq!(bank.list_accounts().len(), 1);
    assert_eq!(bank.get_account(1).unwrap().balance, 1000.0);
}

#[test]
fn list_count_is_adds_less_removes() {
    let mut bank = Bank::new();
    let mut added = 0usize;
    let mut removed = 0usize;
    for round in 0..12u32 {
        let issued = bank.add_account(Account::new(0, format!("n{}", round), 0.0));
        assert_eq!(issued, Ok(round + 1));
        added += 1;
        // an explicit identifier that is taken: must not count
        let again = bank.add_account(Account::new(round + 1, "again".to_string(), 0.0));
        assert_eq!(again, Err(BankError::DuplicateId(round + 1)));
        // changing a balance: must not count
        assert_eq!(bank.update_balance(round + 1, 4.0), Ok(()));
        if round % 2 == 1 {
            assert!(bank.remove_account(round + 1).is_ok());
            removed += 1;
        }
        // removing what is not there: must not count
        assert_eq!(bank.remove_account(1000 + round).err(), Some(BankError::NotFound(1000 + round)));
        assert_eq!(bank.list_accounts().len(), added - removed);
    }
    assert_eq!(added, 12);
    assert_eq!(removed, 6);
    assert_eq!(bank.list_accounts().len(), 6);
}

#[test]
fn list_holds_each_stored_account_once() {
    let mut bank = Bank::new();
    assert_eq!(bank.add_account(alice()), Ok(1));
    assert_eq!(bank.add_account(bob()), Ok(2));
    assert_eq!(bank.add_account(Account::new(10, "Carol".to_string(), 30.0)), Ok(10));
    let mut seen: Vec<(u32, String, f64)> = bank
        .list_accounts()
        .iter()
        .map(|account| (account.id, account.name.clone(), account.balance))
        .collect();
    seen.sort_by_key(|entry| entry.0);
    assert_eq!(
        seen,
        vec![
            (1, "Alice".to_string(), 1000.0),
            (2, "Bob".to_string(), 2000.0),
            (10, "Carol".to_string(), 30.0),
        ]
    );
    // listing takes nothing out
    assert_eq!(bank.list_accounts().len(), 3);
}

#[test]
fn bank_holds_other_kinds_of_balance() {
    let mut bank: Bank<i64> = Bank::new();
    assert_eq!(bank.add_account(Account::new(0, "Cents".to_string(), -5)), Ok(1));
    assert_eq!(bank.update_balance(1, 995), Ok(()));
    assert_eq!(bank.get_account(1).unwrap().balance, 995);
}

#[test]
fn errors_compare_by_kind_and_identifier() {
    assert_eq!(BankError::DuplicateId(3), BankError::DuplicateId(3));
    assert_ne!(BankError::DuplicateId(3), BankError::NotFound(3));
    assert_ne!(BankError::NotFound(3), BankError::NotFound(4));
}

#[test]
fn duplicate_id_in_words() {
    assert_eq!(BankError::DuplicateId(1).message(), "Account with ID 1 already exists");
    assert_eq!(BankError::DuplicateId(0).message(), "Account with ID 0 already exists");
    assert_eq!(
        BankError::DuplicateId(4294967295).message(),
        "Account with ID 4294967295 already exists"
    );
}

#[test]
fn not_found_in_words() {
    assert_eq!(BankError::NotFound(2).message(), "Account with ID 2 not found");
    assert_eq!(BankError::NotFound(10).message(), "Account with ID 10 not found");
    assert_eq!(BankError::NotFound(1234567890).message(), "Account with ID 1234567890 not found");
    assert_eq!(BankError::NotFound(9070).message(), "Account with ID 9070 not found");
}

#[test]
fn refused_requests_say_why() {
    let mut bank = Bank::new();
    assert_eq!(bank.add_account(alice()), Ok(1));
    let refused = bank.add_account(Account::new(1, "Twin".to_string(), 1.0)).unwrap_err();
    assert_eq!(refused.message(), "Account with ID 1 already exists");
    let missing = bank.update_balance(77, 1.0).unwrap_err();
    assert_eq!(missing.message(), "Account with ID 77 not found");
    let gone = bank.remove_account(305).err().unwrap();
    assert_eq!(gone.message(), "Account with ID 305 not found");
}

#[test]
fn account_can_be_cloned() {
    let account = alice();
    let copy = account.clone();
    assert_eq!(copy.id, account.id);
    assert_eq!(copy.name, account.name);
    assert_eq!(copy.balance, account.balance);
}

#[test]
fn account_prints_with_its_fields() {
    let mut bank = Bank::new();
    assert_eq!(bank.add_account(alice()), Ok(1));
    let shown = format!("{:?}", bank.get_account(1).unwrap());
    assert_eq!(shown, "Account { id: 1, name: \"Alice\", balance: 1000.0 }");
}

#[test]
fn empty_bank_prints_its_counter() {
    let bank: Bank<f64> = Bank::new();
    assert_eq!(format!("{:?}", bank), "Bank { accounts: {}, next_id: 1 }");
}
