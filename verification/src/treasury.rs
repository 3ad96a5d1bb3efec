//! The treasury: the account that collects deposits and fees, and the one
//! way to take them out again.

use crate::gateway::{moved, FeeGateway};
use crate::guard::require_privileged;
use crate::store::{Pallet, PalletView};
use crate::types::{AccountId, Balance, Caller, Error, TransferError};
use vstd::prelude::*;

verus! {

/// The account that belongs to the seed `pallet_id`: the eight bytes `modl`
/// and the seed's first four, read as a number with the lowest byte first.
pub open spec fn treasury_account(pallet_id: [u8; 8]) -> AccountId {
    (0x6d + 0x6f * 0x100 + 0x64 * 0x1_0000 + 0x6c * 0x100_0000 + pallet_id[0] * 0x1_0000_0000
        + pallet_id[1] * 0x100_0000_0000 + pallet_id[2] * 0x1_0000_0000_0000 + pallet_id[3]
        * 0x100_0000_0000_0000) as AccountId
}

/// `sp_runtime::traits::AccountIdConversion::into_account_truncating` on a
/// `frame_support::PalletId`, for 64-bit accounts. The source encodes the type
/// tag `modl`, then the seed, and decodes a little-endian `u64` from the first
/// eight bytes of that; the contract states the number that results.
#[verifier::external_body]
fn account_of_pallet(pallet_id: [u8; 8]) -> (r: AccountId)
    ensures
        r == treasury_account(pallet_id),
{
    frame_support::sp_runtime::traits::AccountIdConversion::into_account_truncating(
        &frame_support::PalletId(pallet_id),
    )
}

/// What `withdraw_fees` answers: only the privileged caller may ask, and then
/// the gateway decides.
pub open spec fn withdraw_fees_result<G: FeeGateway>(
    pre: PalletView,
    gateway: G,
    caller: Caller,
    to: AccountId,
    amount: Balance,
) -> Result<(), Error> {
    if caller != Caller::Root {
        Err(Error::BadOrigin)
    } else {
        match gateway.transfer_outcome(treasury_account(pre.config.pallet_id), to, amount) {
            Ok(_) => Ok(()),
            Err(e) => Err(Error::Transfer(e)),
        }
    }
}

impl Pallet {
    /// The treasury account of this registry.
    pub fn account_id(&self) -> (r: AccountId)
        ensures
            r == treasury_account(self@.config.pallet_id),
    {
        account_of_pallet(self.config().pallet_id)
    }

    /// Moves `amount` of the accumulated fees from the treasury to `to`.
    /// Only the privileged caller may do so; there is no partial withdrawal.
    pub fn withdraw_fees<G: FeeGateway>(
        &self,
        gateway: &mut G,
        caller: Caller,
        to: AccountId,
        amount: Balance,
    ) -> (r: Result<(), Error>)
        ensures
            r == withdraw_fees_result(self@, *old(gateway), caller, to, amount),
            r is Ok ==> old(gateway).transferred(
                final(gateway),
                treasury_account(self@.config.pallet_id),
                to,
                amount,
            ) && moved(
                *old(gateway),
                *final(gateway),
                treasury_account(self@.config.pallet_id),
                to,
                amount,
            ),
            r is Err ==> *final(gateway) == *old(gateway),
            caller == Caller::Root && amount > old(gateway).spendable(
                treasury_account(self@.config.pallet_id),
            ) ==> r == Err::<(), Error>(Error::Transfer(TransferError::FundsUnavailable)),
    {
        match require_privileged(caller) {
            Ok(_) => {},
            Err(e) => {
                return Err(e);
            },
        }
        let treasury: AccountId = self.account_id();
        proof {
            gateway.lemma_funds(treasury, to, amount);
        }
        match gateway.transfer(treasury, to, amount) {
            Ok(_) => {
                proof {
                    old(gateway).lemma_transferred(gateway, treasury, to, amount);
                }
                Ok(())
            },
            Err(e) => Err(Error::Transfer(e)),
        }
    }
}

} // verus!
