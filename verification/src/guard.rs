//! Who may do what: the checks on a caller that every operation starts with.

use crate::types::{AccountId, Caller, Error};
use vstd::prelude::*;

verus! {

/// Passes for the privileged identity and for nobody else.
pub fn require_privileged(caller: Caller) -> (r: Result<(), Error>)
    ensures
        r == if caller == Caller::Root {
            Ok::<(), Error>(())
        } else {
            Err::<(), Error>(Error::BadOrigin)
        },
{
    match caller {
        Caller::Root => Ok(()),
        Caller::Signed(_) => Err(Error::BadOrigin),
    }
}

/// What `require_account` answers: the privileged identity is of the wrong
/// class, another account than `expected` is not authorized.
pub open spec fn account_check(caller: Caller, expected: AccountId) -> Result<(), Error> {
    match caller {
        Caller::Root => Err(Error::BadOrigin),
        Caller::Signed(who) => if who == expected {
            Ok(())
        } else {
            Err(Error::NotAuthorized)
        },
    }
}

/// What a caller who must be one of two accounts is told: passed if they are
/// `first` or `second`, else as `account_check` tells them.
pub open spec fn either_account_check(caller: Caller, first: AccountId, second: AccountId) -> Result<
    (),
    Error,
> {
    if account_check(caller, first) is Ok {
        Ok(())
    } else {
        account_check(caller, second)
    }
}

/// Passes for the account `expected` and for nobody else.
pub fn require_account(caller: Caller, expected: AccountId) -> (r: Result<(), Error>)
    ensures
        r == account_check(caller, expected),
        r is Err ==> r->Err_0.is_authorization_error(),
{
    match caller {
        Caller::Root => Err(Error::BadOrigin),
        Caller::Signed(who) => {
            if who == expected {
                Ok(())
            } else {
                Err(Error::NotAuthorized)
            }
        },
    }
}

/// Passes for the accounts `first` and `second` and for nobody else.
pub fn require_either_account(caller: Caller, first: AccountId, second: AccountId) -> (r: Result<
    (),
    Error,
>)
    ensures
        r == either_account_check(caller, first, second),
        r is Err ==> r->Err_0.is_authorization_error(),
{
    match require_account(caller, first) {
        Ok(_) => Ok(()),
        Err(_) => require_account(caller, second),
    }
}

} // verus!
