use club_membership::{FeeGateway, Ledger, TransferError};

#[test]
fn an_unknown_account_holds_nothing() {
    let ledger = Ledger::new(1);
    assert_eq!(ledger.balance_of(5), 0);
    assert_eq!(ledger.minimum_balance(), 1);
}

#[test]
fn set_balance_replaces_what_was_held() {
    let mut ledger = Ledger::new(0);
    ledger.set_balance(5, 10);
    assert_eq!(ledger.balance_of(5), 10);
    ledger.set_balance(5, 3);
    assert_eq!(ledger.balance_of(5), 3);
    assert_eq!(ledger.balance_of(6), 0);
}

#[test]
fn transfer_moves_the_exact_amount() {
    let mut ledger = Ledger::new(1);
    ledger.set_balance(1, 100);
    ledger.set_balance(2, 7);
    ledger.set_balance(3, 50);
    assert_eq!(ledger.transfer(1, 2, 30), Ok(()));
    assert_eq!(ledger.balance_of(1), 70);
    assert_eq!(ledger.balance_of(2), 37);
    assert_eq!(ledger.balance_of(3), 50);
}

#[test]
fn transfer_keeps_the_minimum_back() {
    let mut ledger = Ledger::new(10);
    ledger.set_balance(1, 100);
    assert_eq!(ledger.check_transfer(1, 2, 91), Err(TransferError::FundsUnavailable));
    assert_eq!(ledger.transfer(1, 2, 91), Err(TransferError::FundsUnavailable));
    assert_eq!(ledger.balance_of(1), 100);
    assert_eq!(ledger.balance_of(2), 0);
    assert_eq!(ledger.check_transfer(1, 2, 90), Ok(()));
    assert_eq!(ledger.balance_of(1), 100);
    assert_eq!(ledger.transfer(1, 2, 90), Ok(()));
    assert_eq!(ledger.balance_of(1), 10);
    assert_eq!(ledger.balance_of(2), 90);
}

#[test]
fn an_account_below_the_minimum_can_send_nothing_but_zero() {
    let mut ledger = Ledger::new(10);
    ledger.set_balance(1, 4);
    assert_eq!(ledger.transfer(1, 2, 1), Err(TransferError::FundsUnavailable));
    assert_eq!(ledger.transfer(1, 2, 0), Ok(()));
    assert_eq!(ledger.transfer(3, 2, 0), Ok(()));
    assert_eq!(ledger.balance_of(1), 4);
    assert_eq!(ledger.balance_of(2), 0);
    assert_eq!(ledger.balance_of(3), 0);
}

#[test]
fn transfer_refuses_to_overflow_the_destination() {
    let mut ledger = Ledger::new(0);
    ledger.set_balance(1, 100);
    ledger.set_balance(2, u64::MAX - 5);
    assert_eq!(ledger.check_transfer(1, 2, 6), Err(TransferError::Overflow));
    assert_eq!(ledger.transfer(1, 2, 6), Err(TransferError::Overflow));
    assert_eq!(ledger.balance_of(1), 100);
    assert_eq!(ledger.balance_of(2), u64::MAX - 5);
    assert_eq!(ledger.transfer(1, 2, 5), Ok(()));
    assert_eq!(ledger.balance_of(1), 95);
    assert_eq!(ledger.balance_of(2), u64::MAX);
}

#[test]
fn want_of_funds_is_reported_before_overflow() {
    let mut ledger = Ledger::new(0);
    ledger.set_balance(1, 3);
    ledger.set_balance(2, u64::MAX);
    assert_eq!(ledger.transfer(1, 2, 4), Err(TransferError::FundsUnavailable));
}

#[test]
fn transfer_to_oneself_changes_nothing() {
    let mut ledger = Ledger::new(1);
    ledger.set_balance(1, u64::MAX);
    assert_eq!(ledger.transfer(1, 1, 50), Ok(()));
    assert_eq!(ledger.balance_of(1), u64::MAX);
    assert_eq!(ledger.transfer(1, 1, u64::MAX), Err(TransferError::FundsUnavailable));
    assert_eq!(ledger.balance_of(1), u64::MAX);
}
