use club_membership::guard::{require_account, require_either_account, require_privileged};
use club_membership::{Caller, Error};

#[test]
fn only_root_is_privileged() {
    assert_eq!(require_privileged(Caller::Root), Ok(()));
    assert_eq!(require_privileged(Caller::Signed(1)), Err(Error::BadOrigin));
    assert_eq!(require_privileged(Caller::Signed(0)), Err(Error::BadOrigin));
}

#[test]
fn only_the_expected_account_passes() {
    assert_eq!(require_account(Caller::Signed(7), 7), Ok(()));
    assert_eq!(require_account(Caller::Signed(8), 7), Err(Error::NotAuthorized));
    assert_eq!(require_account(Caller::Root, 7), Err(Error::BadOrigin));
}

#[test]
fn either_of_two_accounts_passes() {
    assert_eq!(require_either_account(Caller::Signed(7), 7, 9), Ok(()));
    assert_eq!(require_either_account(Caller::Signed(9), 7, 9), Ok(()));
    assert_eq!(require_either_account(Caller::Signed(7), 7, 7), Ok(()));
    assert_eq!(require_either_account(Caller::Signed(8), 7, 9), Err(Error::NotAuthorized));
    assert_eq!(require_either_account(Caller::Root, 7, 9), Err(Error::BadOrigin));
}
