//! Clubs, their owners, and fee-paying memberships with expiry tracking.
//!
//! A [`Pallet`] keeps the clubs and the member records. Whoever moves the
//! money is a [`FeeGateway`]; [`Ledger`] is one that lives in memory. Every
//! operation either succeeds as a whole or leaves the registry and the
//! gateway as they were.

pub mod arith;
pub mod gateway;
pub mod guard;
pub mod ledger;
pub mod membership;
pub mod registry;
pub mod store;
pub mod theorems;
pub mod treasury;
pub mod types;

pub use gateway::FeeGateway;
pub use ledger::{Ledger, LedgerView};
pub use registry::ClubAction;
pub use store::{Pallet, PalletView};
pub use types::{
    AccountId, Balance, BlockNumber, Caller, Club, ClubId, ClubMemberMetadata, ClubView, Config,
    Error, Event, EventView, MemberStatus, MemberView, TransferError,
};
