//! The membership ledger: admitting members and renewing their access.

use crate::arith::{
    expiry, extension_start, membership_fee, paid_until, remaining_years, start_of_extension,
    total_fee, within_limit, years_left,
};
use crate::gateway::{moved, FeeGateway};
use crate::guard::{
    account_check, either_account_check, require_account, require_either_account,
};
use crate::store::{copy_name, Pallet, PalletView};
use crate::treasury::treasury_account;
use crate::types::{
    AccountId, Balance, BlockNumber, Caller, ClubId, ClubMemberMetadata, Config, Error, Event,
    EventView, MemberStatus, MemberView, TransferError,
};
use vstd::prelude::*;

verus! {

/// A membership may be paid for between one year and the configured maximum.
pub open spec fn years_valid(config: Config, years: u8) -> bool {
    1 <= years <= config.max_membership_years
}

/// Why `add_member` fails, if it does: the years are tested first, then the
/// club, the caller, and whether the fee can be counted.
pub open spec fn add_member_error(pre: PalletView, caller: Caller, club_id: ClubId, years: u8) -> Option<
    Error,
> {
    if !years_valid(pre.config, years) {
        Some(Error::InvalidMembershipPeriod)
    } else {
        if !pre.clubs.contains_key(club_id) {
            Some(Error::ClubNotFound)
        } else {
            match account_check(caller, pre.clubs[club_id].owner) {
                Err(e) => Some(e),
                Ok(_) => if total_fee(pre.clubs[club_id].fee, years) > Balance::MAX {
                    Some(Error::ArithmeticError)
                } else {
                    None
                },
            }
        }
    }
}

/// What `years` years in club `club_id` cost.
pub open spec fn fee_owed(pre: PalletView, club_id: ClubId, years: u8) -> Balance {
    total_fee(pre.clubs[club_id].fee, years) as Balance
}

/// What the gateway answers when `member` is charged for `years` years in
/// club `club_id`.
pub open spec fn charge_outcome<G: FeeGateway>(
    pre: PalletView,
    gateway: G,
    club_id: ClubId,
    member: AccountId,
    years: u8,
) -> Result<(), TransferError> {
    gateway.transfer_outcome(
        member,
        treasury_account(pre.config.pallet_id),
        fee_owed(pre, club_id, years),
    )
}

/// The status that a new member gets: paid for `years` years from `now` where
/// the fee could be charged, inactive where it could not.
pub open spec fn admission_status(charged: bool, config: Config, years: u8, now: BlockNumber) -> MemberStatus {
    if charged {
        MemberStatus::Paid { until: paid_until(now, years, config.year_in_blocks) }
    } else {
        MemberStatus::Inactive
    }
}

/// The registry after `member` was recorded in club `club_id`.
pub open spec fn with_member(
    pre: PalletView,
    club_id: ClubId,
    member: AccountId,
    name: Seq<u8>,
    status: MemberStatus,
) -> PalletView {
    PalletView { members: pre.members.insert((club_id, member), MemberView { name, status }), ..pre }
}

/// Why the renewal of a membership with the recorded `status` fails, if it
/// does. A paid membership is extended from its expiry, or from `now` once it
/// has expired; the years that remain and the years asked for must together
/// stay strictly under the maximum.
pub open spec fn renewal_error(status: MemberStatus, config: Config, years: u8, now: BlockNumber) -> Option<
    Error,
> {
    match status {
        MemberStatus::Paid { until } => if config.year_in_blocks == 0 {
            Some(Error::ArithmeticError)
        } else if years_left(extension_start(until, now), now, config.year_in_blocks) + years
            >= config.max_membership_years {
            Some(Error::InvalidMembershipPeriod)
        } else {
            None
        },
        MemberStatus::Inactive => None,
    }
}

/// The status after a renewal by `years` years at `now`: paid, from the later
/// of the recorded expiry and `now`; for an inactive member, from `now`.
pub open spec fn renewed_status(status: MemberStatus, config: Config, years: u8, now: BlockNumber) -> MemberStatus {
    match status {
        MemberStatus::Paid { until } => MemberStatus::Paid {
            until: paid_until(extension_start(until, now), years, config.year_in_blocks),
        },
        MemberStatus::Inactive => MemberStatus::Paid {
            until: paid_until(now, years, config.year_in_blocks),
        },
    }
}

/// Why `extend_membership` fails, if it does: the years are tested first,
/// then the club, whether the caller is the owner or the member, whether the
/// fee can be counted, whether the member can pay it, whether the member is
/// on record, and last the limits of the renewal.
pub open spec fn extend_membership_error<G: FeeGateway>(
    pre: PalletView,
    gateway: G,
    caller: Caller,
    club_id: ClubId,
    member: AccountId,
    years: u8,
    now: BlockNumber,
) -> Option<Error> {
    if !years_valid(pre.config, years) {
        Some(Error::InvalidMembershipPeriod)
    } else {
        if !pre.clubs.contains_key(club_id) {
            Some(Error::ClubNotFound)
        } else {
            match either_account_check(caller, pre.clubs[club_id].owner, member) {
                Err(e) => Some(e),
                Ok(_) => if total_fee(pre.clubs[club_id].fee, years) > Balance::MAX {
                    Some(Error::ArithmeticError)
                } else {
                    match charge_outcome(pre, gateway, club_id, member, years) {
                        Err(e) => Some(Error::Transfer(e)),
                        Ok(_) => if !pre.members.contains_key((club_id, member)) {
                            Some(Error::MemberNotFound)
                        } else {
                            renewal_error(
                                pre.members[(club_id, member)].status,
                                pre.config,
                                years,
                                now,
                            )
                        },
                    }
                },
            }
        }
    }
}

/// Decides the renewal of a membership with the recorded `status`: the new
/// status, or why there is none.
pub fn renew(status: MemberStatus, config: Config, years: u8, now: BlockNumber) -> (r: Result<
    MemberStatus,
    Error,
>)
    ensures
        match r {
            Ok(renewed) => renewal_error(status, config, years, now) is None && renewed
                == renewed_status(status, config, years, now),
            Err(e) => renewal_error(status, config, years, now) == Some(e),
        },
{
    match status {
        MemberStatus::Paid { until } => {
            let extend_from: BlockNumber = start_of_extension(until, now);
            let left: BlockNumber = match remaining_years(extend_from, now, config.year_in_blocks) {
                Some(left) => left,
                None => {
                    return Err(Error::ArithmeticError);
                },
            };
            if !within_limit(left, years, config.max_membership_years) {
                return Err(Error::InvalidMembershipPeriod);
            }
            Ok(MemberStatus::Paid { until: expiry(extend_from, years, config.year_in_blocks) })
        },
        MemberStatus::Inactive => Ok(
            MemberStatus::Paid { until: expiry(now, years, config.year_in_blocks) },
        ),
    }
}

impl Pallet {
    /// Records `member` in club `club_id` and charges them the fee for
    /// `years` years. Only the club's owner may do so. A member who cannot pay
    /// is recorded all the same, as inactive, and nothing is charged. A record
    /// that the member already had in the club is replaced.
    pub fn add_member<G: FeeGateway>(
        &mut self,
        gateway: &mut G,
        caller: Caller,
        club_id: ClubId,
        member: AccountId,
        name: Vec<u8>,
        years: u8,
        now: BlockNumber,
    ) -> (r: Result<Event, Error>)
        requires
            old(self).wf(),
            name@.len() <= old(self)@.config.string_limit,
        ensures
            final(self).wf(),
            match r {
                Ok(event) => {
                    let charged = charge_outcome(old(self)@, *old(gateway), club_id, member, years)
                        is Ok;
                    let status = admission_status(charged, old(self)@.config, years, now);
                    &&& add_member_error(old(self)@, caller, club_id, years) is None
                    &&& event@ == (EventView::MemberAdded { club_id, member, status })
                    &&& final(self)@ == with_member(old(self)@, club_id, member, name@, status)
                    &&& charged ==> old(gateway).transferred(
                        final(gateway),
                        member,
                        treasury_account(old(self)@.config.pallet_id),
                        fee_owed(old(self)@, club_id, years),
                    ) && moved(
                        *old(gateway),
                        *final(gateway),
                        member,
                        treasury_account(old(self)@.config.pallet_id),
                        fee_owed(old(self)@, club_id, years),
                    )
                    &&& !charged ==> *final(gateway) == *old(gateway)
                    &&& old(gateway).spendable(member) < total_fee(
                        old(self)@.clubs[club_id].fee,
                        years,
                    ) ==> !charged
                    &&& status matches MemberStatus::Paid { until } ==> until >= now
                },
                Err(e) => {
                    &&& add_member_error(old(self)@, caller, club_id, years) == Some(e)
                    &&& final(self)@ == old(self)@
                    &&& *final(gateway) == *old(gateway)
                },
            },
    {
        let config = self.config();
        if !(years <= config.max_membership_years && years != 0) {
            return Err(Error::InvalidMembershipPeriod);
        }
        let club = match self.club(club_id) {
            Some(club) => club,
            None => {
                return Err(Error::ClubNotFound);
            },
        };
        match require_account(caller, club.owner) {
            Ok(_) => {},
            Err(e) => {
                return Err(e);
            },
        }
        let total_fees: Balance = match membership_fee(club.fee, years) {
            Some(owed) => owed,
            None => {
                return Err(Error::ArithmeticError);
            },
        };
        let treasury: AccountId = self.account_id();
        proof {
            gateway.lemma_funds(member, treasury, total_fees);
        }
        let status = match gateway.transfer(member, treasury, total_fees) {
            Ok(_) => {
                proof {
                    old(gateway).lemma_transferred(gateway, member, treasury, total_fees);
                }
                MemberStatus::Paid { until: expiry(now, years, config.year_in_blocks) }
            },
            Err(_) => MemberStatus::Inactive,
        };
        self.set_member(club_id, member, ClubMemberMetadata { name, status });
        Ok(Event::MemberAdded { club_id, member, status })
    }

    /// Extends the membership of `member` in club `club_id` by `years` years.
    /// The club's owner and the member may do so; either way the member pays.
    /// Nothing changes unless all of it succeeds.
    pub fn extend_membership<G: FeeGateway>(
        &mut self,
        gateway: &mut G,
        caller: Caller,
        club_id: ClubId,
        member: AccountId,
        years: u8,
        now: BlockNumber,
    ) -> (r: Result<Event, Error>)
        requires
            old(self).wf(),
        ensures
            final(self).wf(),
            match r {
                Ok(event) => {
                    let before = old(self)@.members[(club_id, member)];
                    let status = renewed_status(before.status, old(self)@.config, years, now);
                    &&& extend_membership_error(
                        old(self)@,
                        *old(gateway),
                        caller,
                        club_id,
                        member,
                        years,
                        now,
                    ) is None
                    &&& event@ == (EventView::MembershipExtended { club_id, member, new_status: status })
                    &&& final(self)@ == with_member(old(self)@, club_id, member, before.name, status)
                    &&& old(gateway).transferred(
                        final(gateway),
                        member,
                        treasury_account(old(self)@.config.pallet_id),
                        fee_owed(old(self)@, club_id, years),
                    )
                    &&& moved(
                        *old(gateway),
                        *final(gateway),
                        member,
                        treasury_account(old(self)@.config.pallet_id),
                        fee_owed(old(self)@, club_id, years),
                    )
                    &&& status matches MemberStatus::Paid { until } && until >= now && (
                    before.status matches MemberStatus::Paid { until: earlier } ==> until >= earlier)
                },
                Err(e) => {
                    &&& extend_membership_error(
                        old(self)@,
                        *old(gateway),
                        caller,
                        club_id,
                        member,
                        years,
                        now,
                    ) == Some(e)
                    &&& final(self)@ == old(self)@
                    &&& *final(gateway) == *old(gateway)
                },
            },
    {
        let config = self.config();
        if !(years <= config.max_membership_years && years != 0) {
            return Err(Error::InvalidMembershipPeriod);
        }
        let club = match self.club(club_id) {
            Some(club) => club,
            None => {
                return Err(Error::ClubNotFound);
            },
        };
        match require_either_account(caller, club.owner, member) {
            Ok(_) => {},
            Err(e) => {
                return Err(e);
            },
        }
        let total_fees: Balance = match membership_fee(club.fee, years) {
            Some(owed) => owed,
            None => {
                return Err(Error::ArithmeticError);
            },
        };
        let treasury: AccountId = self.account_id();
        match gateway.check_transfer(member, treasury, total_fees) {
            Ok(_) => {},
            Err(e) => {
                return Err(Error::Transfer(e));
            },
        }
        let club_member = match self.member(club_id, member) {
            Some(found) => found,
            None => {
                return Err(Error::MemberNotFound);
            },
        };
        let status = match renew(club_member.status, config, years, now) {
            Ok(renewed) => renewed,
            Err(e) => {
                return Err(e);
            },
        };
        match gateway.transfer(member, treasury, total_fees) {
            Ok(_) => {},
            Err(e) => {
                return Err(Error::Transfer(e));
            },
        }
        proof {
            old(gateway).lemma_transferred(gateway, member, treasury, total_fees);
            self.lemma_inv();
        }
        self.set_member(
            club_id,
            member,
            ClubMemberMetadata { name: copy_name(&club_member.name), status },
        );
        Ok(Event::MembershipExtended { club_id, member, new_status: status })
    }
}

} // verus!
