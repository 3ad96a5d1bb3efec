//! An account book in memory: the plainest fee gateway there is.

use crate::gateway::{balance_after, FeeGateway};
use crate::types::{AccountId, Balance, TransferError};
use std::collections::HashMap;
use vstd::prelude::*;

verus! {

/// What a `Ledger` holds, as mathematical values.
pub ghost struct LedgerView {
    /// What each account on record holds; an account not on record holds nothing.
    pub balances: Map<AccountId, Balance>,
    /// What every account keeps back: no transfer may take a balance below it.
    pub minimum_balance: Balance,
}

impl LedgerView {
    /// What `who` holds.
    pub open spec fn balance(self, who: AccountId) -> Balance {
        if self.balances.contains_key(who) {
            self.balances[who]
        } else {
            0
        }
    }

    /// What `who` holds beyond the minimum.
    pub open spec fn spendable(self, who: AccountId) -> Balance {
        if self.balance(who) >= self.minimum_balance {
            (self.balance(who) - self.minimum_balance) as Balance
        } else {
            0
        }
    }

    /// What a transfer answers: refused where the source cannot spare the
    /// amount, then where the destination cannot hold it, else done.
    pub open spec fn transfer_outcome(self, from: AccountId, to: AccountId, amount: Balance) -> Result<
        (),
        TransferError,
    > {
        if amount > self.spendable(from) {
            Err(TransferError::FundsUnavailable)
        } else if from != to && self.balance(to) + amount > Balance::MAX {
            Err(TransferError::Overflow)
        } else {
            Ok(())
        }
    }

    /// The book after `amount` went from `from` to `to`.
    pub open spec fn after_transfer(self, from: AccountId, to: AccountId, amount: Balance) -> LedgerView {
        if from == to {
            self
        } else {
            LedgerView {
                balances: self.balances.insert(
                    from,
                    (self.balance(from) - amount) as Balance,
                ).insert(to, (self.balance(to) + amount) as Balance),
                minimum_balance: self.minimum_balance,
            }
        }
    }
}

/// Balances by account, with a minimum that every account keeps back.
pub struct Ledger {
    accounts: HashMap<AccountId, Balance>,
    minimum_balance: Balance,
}

impl View for Ledger {
    type V = LedgerView;

    closed spec fn view(&self) -> LedgerView {
        LedgerView { balances: self.accounts@, minimum_balance: self.minimum_balance }
    }
}

impl Ledger {
    /// An empty book whose accounts keep back `minimum_balance`.
    pub fn new(minimum_balance: Balance) -> (r: Ledger)
        ensures
            r@ == (LedgerView { balances: Map::empty(), minimum_balance }),
    {
        Ledger { accounts: HashMap::new(), minimum_balance }
    }

    /// What every account keeps back.
    pub fn minimum_balance(&self) -> (r: Balance)
        ensures
            r == self@.minimum_balance,
    {
        self.minimum_balance
    }

    /// What `who` holds.
    pub fn balance_of(&self, who: AccountId) -> (r: Balance)
        ensures
            r == self@.balance(who),
    {
        broadcast use vstd::std_specs::hash::group_hash_axioms;

        match self.accounts.get(&who) {
            Some(held) => *held,
            None => 0,
        }
    }

    /// Sets what `who` holds to `amount`, whatever it was.
    pub fn set_balance(&mut self, who: AccountId, amount: Balance)
        ensures
            final(self)@ == (LedgerView {
                balances: old(self)@.balances.insert(who, amount),
                minimum_balance: old(self)@.minimum_balance,
            }),
    {
        broadcast use vstd::std_specs::hash::group_hash_axioms;

        self.accounts.insert(who, amount);
    }
}

impl FeeGateway for Ledger {
    open spec fn balance(&self, who: AccountId) -> nat {
        self@.balance(who) as nat
    }

    open spec fn spendable(&self, who: AccountId) -> nat {
        self@.spendable(who) as nat
    }

    open spec fn transfer_outcome(&self, from: AccountId, to: AccountId, amount: Balance) -> Result<
        (),
        TransferError,
    > {
        self@.transfer_outcome(from, to, amount)
    }

    open spec fn transferred(&self, post: &Self, from: AccountId, to: AccountId, amount: Balance) -> bool {
        &&& self@.transfer_outcome(from, to, amount) is Ok
        &&& post@ == self@.after_transfer(from, to, amount)
    }

    proof fn lemma_transferred(
        &self,
        post: &Self,
        from: AccountId,
        to: AccountId,
        amount: Balance,
    ) {
        assert forall|who: AccountId| #[trigger]
            post.balance(who) == balance_after(self.balance(who), who, from, to, amount) by {}
    }

    proof fn lemma_funds(&self, from: AccountId, to: AccountId, amount: Balance) {
    }

    fn check_transfer(&self, from: AccountId, to: AccountId, amount: Balance) -> (r: Result<
        (),
        TransferError,
    >) {
        let held: Balance = self.balance_of(from);
        let free: Balance = if held >= self.minimum_balance {
            held - self.minimum_balance
        } else {
            0
        };
        if amount > free {
            Err(TransferError::FundsUnavailable)
        } else if from != to && amount > Balance::MAX - self.balance_of(to) {
            Err(TransferError::Overflow)
        } else {
            Ok(())
        }
    }

    fn transfer(&mut self, from: AccountId, to: AccountId, amount: Balance) -> (r: Result<
        (),
        TransferError,
    >) {
        let checked = self.check_transfer(from, to, amount);
        if checked.is_err() {
            return checked;
        }
        if from != to {
            let source: Balance = self.balance_of(from);
            let target: Balance = self.balance_of(to);
            self.set_balance(from, source - amount);
            self.set_balance(to, target + amount);
        }
        assert(self@.balances =~= old(self)@.after_transfer(from, to, amount).balances);
        Ok(())
    }
}

} // verus!
