//! The fee gateway: what the registry asks of whatever moves value between
//! accounts. The registry calls it and never looks inside.

use crate::types::{AccountId, Balance, TransferError};
use vstd::prelude::*;

verus! {

/// Something that holds a balance for every account and can move an amount
/// from one account to another, all or nothing.
pub trait FeeGateway: Sized {
    /// What `who` holds.
    spec fn balance(&self, who: AccountId) -> nat;

    /// The most that `who` can send in one transfer.
    spec fn spendable(&self, who: AccountId) -> nat;

    /// What a transfer of `amount` from `from` to `to` would answer now.
    spec fn transfer_outcome(&self, from: AccountId, to: AccountId, amount: Balance) -> Result<
        (),
        TransferError,
    >;

    /// `post` is what this gateway becomes when `amount` goes from `from` to `to`.
    spec fn transferred(&self, post: &Self, from: AccountId, to: AccountId, amount: Balance) -> bool;

    /// A transfer that was done took exactly `amount` from the source, gave
    /// exactly `amount` to the destination, and left everybody else alone.
    proof fn lemma_transferred(
        &self,
        post: &Self,
        from: AccountId,
        to: AccountId,
        amount: Balance,
    )
        requires
            self.transferred(post, from, to, amount),
        ensures
            forall|who: AccountId| #[trigger]
                post.balance(who) == balance_after(self.balance(who), who, from, to, amount),
    ;

    /// Nobody can send more than they hold, and a transfer is refused for
    /// want of funds exactly when it asks for more than the source can send.
    proof fn lemma_funds(&self, from: AccountId, to: AccountId, amount: Balance)
        ensures
            self.spendable(from) <= self.balance(from),
            self.transfer_outcome(from, to, amount) == Err::<(), TransferError>(
                TransferError::FundsUnavailable,
            ) <==> amount > self.spendable(from),
    ;

    /// Says what `transfer` would answer, and moves nothing.
    fn check_transfer(&self, from: AccountId, to: AccountId, amount: Balance) -> (r: Result<
        (),
        TransferError,
    >)
        ensures
            r == self.transfer_outcome(from, to, amount),
    ;

    /// Moves `amount` from `from` to `to`, or refuses and changes nothing.
    fn transfer(&mut self, from: AccountId, to: AccountId, amount: Balance) -> (r: Result<
        (),
        TransferError,
    >)
        ensures
            r == old(self).transfer_outcome(from, to, amount),
            r is Err ==> *final(self) == *old(self),
            r is Ok ==> old(self).transferred(final(self), from, to, amount),
    ;
}

/// The balance of `who` after `amount` went from `from` to `to`, given the
/// balance `before`.
pub open spec fn balance_after(
    before: nat,
    who: AccountId,
    from: AccountId,
    to: AccountId,
    amount: Balance,
) -> int {
    if from == to {
        before as int
    } else if who == from {
        before - amount
    } else if who == to {
        before + amount
    } else {
        before as int
    }
}

/// `post` is `pre` after exactly `amount` went from `from` to `to`: the source
/// holds that much less, the destination that much more, everybody else the same.
pub open spec fn moved<G: FeeGateway>(
    pre: G,
    post: G,
    from: AccountId,
    to: AccountId,
    amount: Balance,
) -> bool {
    forall|who: AccountId| #[trigger]
        post.balance(who) == balance_after(pre.balance(who), who, from, to, amount)
}

} // verus!
