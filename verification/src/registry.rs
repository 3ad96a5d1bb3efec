//! The club registry: creating clubs, handing them over, setting their fee.

use crate::arith::next_club_id;
use crate::gateway::{moved, FeeGateway};
use crate::guard::{account_check, require_account, require_privileged};
use crate::store::{copy_name, Pallet, PalletView};
use crate::treasury::treasury_account;
use crate::types::{
    AccountId, Balance, Caller, Club, ClubId, ClubView, Error, Event, EventView,
};
use vstd::prelude::*;

verus! {

/// A change to one field of a club.
pub enum ClubAction {
    /// Change the owner.
    TransferOwnership(AccountId),
    /// Set the annual fee.
    SetAnnualFee(Balance),
}

/// Why `create_club` fails, if it does: the caller's class is tested first,
/// then the counter, then the deposit.
pub open spec fn create_club_error<G: FeeGateway>(
    pre: PalletView,
    gateway: G,
    caller: Caller,
    owner: AccountId,
) -> Option<Error> {
    if caller != Caller::Root {
        Some(Error::BadOrigin)
    } else if pre.next_club_id == ClubId::MAX {
        Some(Error::ArithmeticError)
    } else {
        match gateway.transfer_outcome(
            owner,
            treasury_account(pre.config.pallet_id),
            pre.config.club_creation_deposit,
        ) {
            Ok(_) => None,
            Err(e) => Some(Error::Transfer(e)),
        }
    }
}

/// The registry after a club was created in `pre`.
pub open spec fn with_new_club(pre: PalletView, owner: AccountId, name: Seq<u8>, fee: Balance) -> PalletView {
    PalletView {
        next_club_id: (pre.next_club_id + 1) as ClubId,
        clubs: pre.clubs.insert(pre.next_club_id, ClubView { name, fee, owner }),
        ..pre
    }
}

/// Why a change to club `club_id` asked for by `caller` fails, if it does:
/// the club must be on record, and the caller must be its owner.
pub open spec fn club_change_error(pre: PalletView, caller: Caller, club_id: ClubId) -> Option<Error> {
    if !pre.clubs.contains_key(club_id) {
        Some(Error::ClubNotFound)
    } else {
        match account_check(caller, pre.clubs[club_id].owner) {
            Ok(_) => None,
            Err(e) => Some(e),
        }
    }
}

/// The club `before` after `action`.
pub open spec fn club_after(before: ClubView, action: ClubAction) -> ClubView {
    match action {
        ClubAction::TransferOwnership(new_owner) => ClubView { owner: new_owner, ..before },
        ClubAction::SetAnnualFee(new_fee) => ClubView { fee: new_fee, ..before },
    }
}

/// What is reported when `action` changed the club `before`.
pub open spec fn club_change_event(club_id: ClubId, before: ClubView, action: ClubAction) -> EventView {
    match action {
        ClubAction::TransferOwnership(new_owner) => EventView::ClubTransferred {
            club_id,
            old_owner: before.owner,
            new_owner,
        },
        ClubAction::SetAnnualFee(new_fee) => EventView::ClubAnnualFeeSet {
            club_id,
            old_fee: before.fee,
            new_fee,
        },
    }
}

/// The registry after `action` changed club `club_id` of `pre`.
pub open spec fn with_changed_club(pre: PalletView, club_id: ClubId, action: ClubAction) -> PalletView {
    PalletView { clubs: pre.clubs.insert(club_id, club_after(pre.clubs[club_id], action)), ..pre }
}

impl Pallet {
    /// Creates a club owned by `owner` and charges the creation deposit from
    /// `owner` to the treasury. Only the privileged caller may do so. The
    /// club gets the counter's value as its identifier, and the counter
    /// moves on by one; a failed attempt leaves everything as it was.
    pub fn create_club<G: FeeGateway>(
        &mut self,
        gateway: &mut G,
        caller: Caller,
        owner: AccountId,
        name: Vec<u8>,
        fee: Balance,
    ) -> (r: Result<Event, Error>)
        requires
            old(self).wf(),
            name@.len() <= old(self)@.config.string_limit,
        ensures
            final(self).wf(),
            match r {
                Ok(event) => {
                    &&& create_club_error(old(self)@, *old(gateway), caller, owner) is None
                    &&& event@ == (EventView::ClubCreated {
                        club_id: old(self)@.next_club_id,
                        owner,
                        name: name@,
                        fee,
                    })
                    &&& final(self)@ == with_new_club(old(self)@, owner, name@, fee)
                    &&& old(gateway).transferred(
                        final(gateway),
                        owner,
                        treasury_account(old(self)@.config.pallet_id),
                        old(self)@.config.club_creation_deposit,
                    )
                    &&& moved(
                        *old(gateway),
                        *final(gateway),
                        owner,
                        treasury_account(old(self)@.config.pallet_id),
                        old(self)@.config.club_creation_deposit,
                    )
                },
                Err(e) => {
                    &&& create_club_error(old(self)@, *old(gateway), caller, owner) == Some(e)
                    &&& final(self)@ == old(self)@
                    &&& *final(gateway) == *old(gateway)
                },
            },
    {
        match require_privileged(caller) {
            Ok(_) => {},
            Err(e) => {
                return Err(e);
            },
        }
        let club_id: ClubId = self.next_club_id();
        let next: ClubId = match next_club_id(club_id) {
            Some(next) => next,
            None => {
                return Err(Error::ArithmeticError);
            },
        };
        let treasury: AccountId = self.account_id();
        let deposit: Balance = self.config().club_creation_deposit;
        match gateway.transfer(owner, treasury, deposit) {
            Ok(_) => {
                proof {
                    old(gateway).lemma_transferred(gateway, owner, treasury, deposit);
                }
            },
            Err(e) => {
                return Err(Error::Transfer(e));
            },
        }
        let club = Club { name: copy_name(&name), fee, owner };
        self.insert_club(club, next);
        Ok(Event::ClubCreated { club_id, owner, name, fee })
    }

    /// Applies `action` to club `club_id` on behalf of `caller`, who must be
    /// the club's owner.
    pub fn modify_club(&mut self, club_id: ClubId, caller: Caller, action: ClubAction) -> (r: Result<
        Event,
        Error,
    >)
        requires
            old(self).wf(),
        ensures
            final(self).wf(),
            match r {
                Ok(event) => {
                    &&& club_change_error(old(self)@, caller, club_id) is None
                    &&& event@ == club_change_event(club_id, old(self)@.clubs[club_id], action)
                    &&& final(self)@ == with_changed_club(old(self)@, club_id, action)
                },
                Err(e) => {
                    &&& club_change_error(old(self)@, caller, club_id) == Some(e)
                    &&& final(self)@ == old(self)@
                },
            },
    {
        let mut club = match self.club(club_id) {
            Some(club) => club,
            None => {
                return Err(Error::ClubNotFound);
            },
        };
        match require_account(caller, club.owner) {
            Ok(_) => {},
            Err(e) => {
                return Err(e);
            },
        }
        proof {
            self.lemma_inv();
        }
        let event = match action {
            ClubAction::TransferOwnership(new_owner) => {
                let event = Event::ClubTransferred { club_id, old_owner: club.owner, new_owner };
                club.owner = new_owner;
                event
            },
            ClubAction::SetAnnualFee(fee) => {
                let event = Event::ClubAnnualFeeSet { club_id, old_fee: club.fee, new_fee: fee };
                club.fee = fee;
                event
            },
        };
        self.set_club(club_id, club);
        Ok(event)
    }

    /// Hands club `club_id` over to `new_owner`. Only the club's owner may do so.
    pub fn transfer_club(&mut self, caller: Caller, club_id: ClubId, new_owner: AccountId) -> (r:
        Result<Event, Error>)
        requires
            old(self).wf(),
        ensures
            final(self).wf(),
            match r {
                Ok(event) => {
                    &&& club_change_error(old(self)@, caller, club_id) is None
                    &&& event@ == (EventView::ClubTransferred {
                        club_id,
                        old_owner: old(self)@.clubs[club_id].owner,
                        new_owner,
                    })
                    &&& final(self)@ == with_changed_club(
                        old(self)@,
                        club_id,
                        ClubAction::TransferOwnership(new_owner),
                    )
                },
                Err(e) => {
                    &&& club_change_error(old(self)@, caller, club_id) == Some(e)
                    &&& final(self)@ == old(self)@
                },
            },
    {
        self.modify_club(club_id, caller, ClubAction::TransferOwnership(new_owner))
    }

    /// Sets the annual fee of club `club_id`. Only the club's owner may do so.
    pub fn set_annual_fee(&mut self, caller: Caller, club_id: ClubId, new_fee: Balance) -> (r: Result<
        Event,
        Error,
    >)
        requires
            old(self).wf(),
        ensures
            final(self).wf(),
            match r {
                Ok(event) => {
                    &&& club_change_error(old(self)@, caller, club_id) is None
                    &&& event@ == (EventView::ClubAnnualFeeSet {
                        club_id,
                        old_fee: old(self)@.clubs[club_id].fee,
                        new_fee,
                    })
                    &&& final(self)@ == with_changed_club(
                        old(self)@,
                        club_id,
                        ClubAction::SetAnnualFee(new_fee),
                    )
                },
                Err(e) => {
                    &&& club_change_error(old(self)@, caller, club_id) == Some(e)
                    &&& final(self)@ == old(self)@
                },
            },
    {
        self.modify_club(club_id, caller, ClubAction::SetAnnualFee(new_fee))
    }
}

} // verus!
