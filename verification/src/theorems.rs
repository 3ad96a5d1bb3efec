//! What holds of the registry whatever it is asked to do, stated over the
//! same functions that the operations' contracts are written in.

use crate::arith::{paid_until, total_fee};
use crate::gateway::{balance_after, moved, FeeGateway};
use crate::ledger::Ledger;
use crate::membership::{
    add_member_error, admission_status, charge_outcome, extend_membership_error, fee_owed,
    renewed_status, with_member,
};
use crate::registry::{club_change_error, with_changed_club, with_new_club, ClubAction};
use crate::store::PalletView;
use crate::treasury::{treasury_account, withdraw_fees_result};
use crate::types::{
    AccountId, Balance, BlockNumber, Caller, ClubId, Config, Error, MemberStatus, TransferError,
};
use vstd::prelude::*;

verus! {

/// A member who is admitted and can pay is charged the club's annual fee
/// times the number of years, exactly: the member holds that much less and
/// the treasury that much more.
pub proof fn lemma_admission_charges_exact_fee<G: FeeGateway>(
    pre: PalletView,
    before: G,
    after: G,
    caller: Caller,
    club_id: ClubId,
    member: AccountId,
    years: u8,
)
    requires
        add_member_error(pre, caller, club_id, years) is None,
        moved(
            before,
            after,
            member,
            treasury_account(pre.config.pallet_id),
            fee_owed(pre, club_id, years),
        ),
    ensures
        1 <= years <= pre.config.max_membership_years,
        fee_owed(pre, club_id, years) == pre.clubs[club_id].fee * years,
        member != treasury_account(pre.config.pallet_id) ==> {
            &&& after.balance(member) == before.balance(member) - pre.clubs[club_id].fee * years
            &&& after.balance(treasury_account(pre.config.pallet_id)) == before.balance(
                treasury_account(pre.config.pallet_id),
            ) + pre.clubs[club_id].fee * years
        },
{
    let treasury = treasury_account(pre.config.pallet_id);
    assert(after.balance(member) == balance_after(
        before.balance(member),
        member,
        member,
        treasury,
        fee_owed(pre, club_id, years),
    ));
    assert(after.balance(treasury) == balance_after(
        before.balance(treasury),
        treasury,
        member,
        treasury,
        fee_owed(pre, club_id, years),
    ));
}

/// A member whose membership is extended is charged the club's annual fee
/// times the number of years, exactly, whoever asked for the extension.
pub proof fn lemma_renewal_charges_exact_fee<G: FeeGateway>(
    pre: PalletView,
    before: G,
    after: G,
    caller: Caller,
    club_id: ClubId,
    member: AccountId,
    years: u8,
    now: BlockNumber,
)
    requires
        extend_membership_error(pre, before, caller, club_id, member, years, now) is None,
        moved(
            before,
            after,
            member,
            treasury_account(pre.config.pallet_id),
            fee_owed(pre, club_id, years),
        ),
    ensures
        1 <= years <= pre.config.max_membership_years,
        fee_owed(pre, club_id, years) == pre.clubs[club_id].fee * years,
        member != treasury_account(pre.config.pallet_id) ==> {
            &&& after.balance(member) == before.balance(member) - pre.clubs[club_id].fee * years
            &&& after.balance(treasury_account(pre.config.pallet_id)) == before.balance(
                treasury_account(pre.config.pallet_id),
            ) + pre.clubs[club_id].fee * years
        },
{
    let treasury = treasury_account(pre.config.pallet_id);
    assert(after.balance(member) == balance_after(
        before.balance(member),
        member,
        member,
        treasury,
        fee_owed(pre, club_id, years),
    ));
    assert(after.balance(treasury) == balance_after(
        before.balance(treasury),
        treasury,
        member,
        treasury,
        fee_owed(pre, club_id, years),
    ));
}

/// A renewal always ends in a paid status that lasts at least until now, and
/// never ends earlier than the membership did before.
pub proof fn lemma_renewal_never_shortens(
    status: MemberStatus,
    config: Config,
    years: u8,
    now: BlockNumber,
)
    ensures
        renewed_status(status, config, years, now) is Paid,
        renewed_status(status, config, years, now)->until >= now,
        status matches MemberStatus::Paid { until } ==> renewed_status(
            status,
            config,
            years,
            now,
        )->until >= until,
{
    assert(years * config.year_in_blocks >= 0) by (nonlinear_arith);
}

/// A payment lasts at least until the block at which it starts.
pub proof fn lemma_paid_until_not_before_start(from: BlockNumber, years: u8, year_in_blocks: BlockNumber)
    ensures
        paid_until(from, years, year_in_blocks) >= from,
{
    assert(years * year_in_blocks >= 0) by (nonlinear_arith);
}

/// A member who cannot spare the fee is admitted as inactive: the gateway
/// refuses the charge for want of funds.
pub proof fn lemma_admission_without_funds_is_inactive<G: FeeGateway>(
    pre: PalletView,
    gateway: G,
    caller: Caller,
    club_id: ClubId,
    member: AccountId,
    years: u8,
    now: BlockNumber,
)
    requires
        add_member_error(pre, caller, club_id, years) is None,
        gateway.spendable(member) < total_fee(pre.clubs[club_id].fee, years),
    ensures
        charge_outcome(pre, gateway, club_id, member, years) == Err::<(), TransferError>(
            TransferError::FundsUnavailable,
        ),
        admission_status(
            charge_outcome(pre, gateway, club_id, member, years) is Ok,
            pre.config,
            years,
            now,
        ) == MemberStatus::Inactive,
{
    gateway.lemma_funds(
        member,
        treasury_account(pre.config.pallet_id),
        fee_owed(pre, club_id, years),
    );
}

/// A new club gets an identifier that no club had before, the counter moves
/// on by exactly one, the clubs that were there stay as they were, and the
/// invariant of the registry is kept.
pub proof fn lemma_club_ids_are_fresh(pre: PalletView, owner: AccountId, name: Seq<u8>, fee: Balance)
    requires
        pre.inv(),
        pre.next_club_id < ClubId::MAX,
        name.len() <= pre.config.string_limit,
    ensures
        !pre.clubs.contains_key(pre.next_club_id),
        with_new_club(pre, owner, name, fee).next_club_id == pre.next_club_id + 1,
        with_new_club(pre, owner, name, fee).clubs.contains_key(pre.next_club_id),
        forall|id: ClubId| #[trigger]
            pre.clubs.contains_key(id) ==> id < pre.next_club_id && with_new_club(
                pre,
                owner,
                name,
                fee,
            ).clubs.contains_key(id) && with_new_club(pre, owner, name, fee).clubs[id]
                == pre.clubs[id],
        with_new_club(pre, owner, name, fee).inv(),
{
    let post = with_new_club(pre, owner, name, fee);
    assert forall|id: ClubId| #[trigger] post.clubs.contains_key(id) <==> id < post.next_club_id by {
        assert(pre.clubs.contains_key(id) <==> id < pre.next_club_id);
    }
    assert forall|key: (ClubId, AccountId)| #[trigger] post.members.contains_key(key) implies {
        &&& key.0 < post.next_club_id
        &&& post.members[key].name.len() <= post.config.string_limit
    } by {
        assert(pre.members.contains_key(key));
    }
}

/// Nothing but the creation of a club moves the counter: a change to a club
/// and a change to a member leave it where it was, keep every club on
/// record, and keep the invariant of the registry.
pub proof fn lemma_counter_moves_only_on_creation(
    pre: PalletView,
    club_id: ClubId,
    action: ClubAction,
    member: AccountId,
    name: Seq<u8>,
    status: MemberStatus,
)
    requires
        pre.inv(),
        pre.clubs.contains_key(club_id),
        name.len() <= pre.config.string_limit,
    ensures
        with_changed_club(pre, club_id, action).next_club_id == pre.next_club_id,
        with_changed_club(pre, club_id, action).clubs.dom() == pre.clubs.dom(),
        with_changed_club(pre, club_id, action).inv(),
        with_member(pre, club_id, member, name, status).next_club_id == pre.next_club_id,
        with_member(pre, club_id, member, name, status).clubs == pre.clubs,
        with_member(pre, club_id, member, name, status).inv(),
{
    let changed = with_changed_club(pre, club_id, action);
    assert(changed.clubs.dom() =~= pre.clubs.dom());
    assert forall|id: ClubId| #[trigger] changed.clubs.contains_key(id) <==> id
        < changed.next_club_id by {
        assert(pre.clubs.contains_key(id) <==> id < pre.next_club_id);
    }
    assert forall|id: ClubId| #[trigger] changed.clubs.contains_key(id) implies changed.clubs[id].name.len()
        <= changed.config.string_limit by {
        assert(pre.clubs.contains_key(id));
    }
    assert forall|key: (ClubId, AccountId)| #[trigger] changed.members.contains_key(key) implies {
        &&& key.0 < changed.next_club_id
        &&& changed.members[key].name.len() <= changed.config.string_limit
    } by {
        assert(pre.members.contains_key(key));
    }
    let joined = with_member(pre, club_id, member, name, status);
    assert forall|key: (ClubId, AccountId)| #[trigger] joined.members.contains_key(key) implies {
        &&& key.0 < joined.next_club_id
        &&& joined.members[key].name.len() <= joined.config.string_limit
    } by {
        if key != (club_id, member) {
            assert(pre.members.contains_key(key));
        }
    }
}

/// A club can be handed over, and its fee set, by its current owner and by
/// nobody else: any other caller is told that they lack the authority, and
/// whoever names a club that is not on record is told that it was not found.
pub proof fn lemma_only_the_owner_changes_a_club(pre: PalletView, caller: Caller, club_id: ClubId)
    ensures
        !pre.clubs.contains_key(club_id) ==> club_change_error(pre, caller, club_id) == Some(
            Error::ClubNotFound,
        ) && Error::ClubNotFound.is_not_found_error(),
        pre.clubs.contains_key(club_id) && caller != Caller::Signed(pre.clubs[club_id].owner)
            ==> club_change_error(pre, caller, club_id) is Some && club_change_error(
            pre,
            caller,
            club_id,
        )->Some_0.is_authorization_error(),
        pre.clubs.contains_key(club_id) && caller == Caller::Signed(pre.clubs[club_id].owner)
            ==> club_change_error(pre, caller, club_id) is None,
{
}

/// From a ledger, the privileged caller can withdraw exactly what the
/// treasury can spare: a larger amount is refused for want of funds, any
/// other goes through unless the destination cannot hold it, and then the
/// treasury holds exactly that much less.
pub proof fn lemma_withdrawal_from_ledger(
    pre: PalletView,
    ledger: Ledger,
    to: AccountId,
    amount: Balance,
)
    ensures
        amount > ledger@.spendable(treasury_account(pre.config.pallet_id))
            ==> withdraw_fees_result(pre, ledger, Caller::Root, to, amount) == Err::<(), Error>(
            Error::Transfer(TransferError::FundsUnavailable),
        ),
        amount <= ledger@.spendable(treasury_account(pre.config.pallet_id)) && (to
            == treasury_account(pre.config.pallet_id) || ledger@.balance(to) + amount
            <= Balance::MAX) ==> withdraw_fees_result(pre, ledger, Caller::Root, to, amount) is Ok,
        to != treasury_account(pre.config.pallet_id) && withdraw_fees_result(
            pre,
            ledger,
            Caller::Root,
            to,
            amount,
        ) is Ok ==> ledger@.after_transfer(
            treasury_account(pre.config.pallet_id),
            to,
            amount,
        ).balance(treasury_account(pre.config.pallet_id)) == ledger@.balance(
            treasury_account(pre.config.pallet_id),
        ) - amount,
{
}

/// Whatever the gateway, a withdrawal that goes through takes exactly the
/// amount from the treasury and gives it to the destination.
pub proof fn lemma_withdrawal_moves_exact_amount<G: FeeGateway>(
    pre: PalletView,
    before: G,
    after: G,
    to: AccountId,
    amount: Balance,
)
    requires
        moved(before, after, treasury_account(pre.config.pallet_id), to, amount),
        to != treasury_account(pre.config.pallet_id),
    ensures
        after.balance(treasury_account(pre.config.pallet_id)) == before.balance(
            treasury_account(pre.config.pallet_id),
        ) - amount,
        after.balance(to) == before.balance(to) + amount,
{
    let treasury = treasury_account(pre.config.pallet_id);
    assert(after.balance(treasury) == balance_after(
        before.balance(treasury),
        treasury,
        treasury,
        to,
        amount,
    ));
    assert(after.balance(to) == balance_after(
        before.balance(to),
        to,
        treasury,
        to,
        amount,
    ));
}

} // verus!
