//! The data that the registry keeps and hands out: clubs, member records,
//! configuration, callers, events and errors, each with its mathematical view.

use vstd::prelude::*;

verus! {

/// Identifies an account.
pub type AccountId = u64;

/// An amount of currency.
pub type Balance = u64;

/// A point in time, counted in blocks.
pub type BlockNumber = u64;

/// Identifies a club.
pub type ClubId = u32;

/// Who is asking for an operation.
#[derive(Clone, Copy, Debug, PartialEq, Eq, Structural)]
pub enum Caller {
    /// The privileged identity.
    Root,
    /// An ordinary account.
    Signed(AccountId),
}

/// Status of a member.
#[derive(Clone, Copy, Debug, PartialEq, Eq, Structural)]
pub enum MemberStatus {
    /// The fee is paid and access is valid through `until`.
    Paid {
        /// The block number until which the membership is valid.
        until: BlockNumber,
    },
    /// The fee is not currently paid.
    Inactive,
}

impl MemberStatus {
    /// The expiry of a paid membership; nothing for an inactive one.
    pub fn until(&self) -> (r: Option<BlockNumber>)
        ensures
            r == match *self {
                MemberStatus::Paid { until } => Some(until),
                MemberStatus::Inactive => None,
            },
    {
        match self {
            MemberStatus::Paid { until } => Some(*until),
            MemberStatus::Inactive => None,
        }
    }
}

/// The constants that an instance of the registry is set up with.
#[derive(Clone, Copy, Debug, PartialEq, Eq)]
pub struct Config {
    /// Seed from which the treasury account is derived.
    pub pallet_id: [u8; 8],
    /// Greatest length, in bytes, of a club's or a member's name.
    pub string_limit: u32,
    /// Greatest number of years that a membership may be paid for.
    pub max_membership_years: u8,
    /// Deposit charged from the owner when a club is created.
    pub club_creation_deposit: Balance,
    /// Length of one year, in blocks.
    pub year_in_blocks: BlockNumber,
}

/// A club.
#[derive(Clone, Debug, PartialEq, Eq)]
pub struct Club {
    /// Name of the club, at most `Config::string_limit` bytes.
    pub name: Vec<u8>,
    /// Annual fee to be a member of the club.
    pub fee: Balance,
    /// Owner of the club.
    pub owner: AccountId,
}

/// What a `Club` holds, as mathematical values.
pub ghost struct ClubView {
    pub name: Seq<u8>,
    pub fee: Balance,
    pub owner: AccountId,
}

impl View for Club {
    type V = ClubView;

    open spec fn view(&self) -> ClubView {
        ClubView { name: self.name@, fee: self.fee, owner: self.owner }
    }
}

/// What is recorded of one member of one club.
#[derive(Clone, Debug, PartialEq, Eq)]
pub struct ClubMemberMetadata {
    /// Name of the member, at most `Config::string_limit` bytes.
    pub name: Vec<u8>,
    /// Whether, and until when, the membership is paid.
    pub status: MemberStatus,
}

/// What a `ClubMemberMetadata` holds, as mathematical values.
pub ghost struct MemberView {
    pub name: Seq<u8>,
    pub status: MemberStatus,
}

impl View for ClubMemberMetadata {
    type V = MemberView;

    open spec fn view(&self) -> MemberView {
        MemberView { name: self.name@, status: self.status }
    }
}

/// Why a fee gateway refused to move an amount.
#[derive(Clone, Copy, Debug, PartialEq, Eq, Structural)]
pub enum TransferError {
    /// The source cannot spare the amount.
    FundsUnavailable,
    /// The destination cannot hold the amount.
    Overflow,
}

/// Errors that an operation can return.
#[derive(Clone, Copy, Debug, PartialEq, Eq, Structural)]
pub enum Error {
    /// Maximum number of members reached.
    MaxMembersReached,
    /// Club not found.
    ClubNotFound,
    /// Member not found.
    MemberNotFound,
    /// Member can not pay the fee.
    MemberCanNotPayFee,
    /// An overflow or a division by zero.
    ArithmeticError,
    /// The caller is an account, but not one that may perform the action.
    NotAuthorized,
    /// The number of years is zero or beyond `Config::max_membership_years`.
    InvalidMembershipPeriod,
    /// The caller is of the wrong class: privileged where an account is
    /// needed, or an account where the privileged identity is needed.
    BadOrigin,
    /// The fee gateway refused a transfer.
    Transfer(TransferError),
}

impl Error {
    /// The caller lacks the privilege or the identity that the operation asks for.
    pub open spec fn is_authorization_error(self) -> bool {
        self == Error::BadOrigin || self == Error::NotAuthorized
    }

    /// The club or the member referred to is not recorded.
    pub open spec fn is_not_found_error(self) -> bool {
        self == Error::ClubNotFound || self == Error::MemberNotFound
    }
}

/// What a successful operation reports.
#[derive(Clone, Debug, PartialEq, Eq)]
pub enum Event {
    /// A new club is created.
    ClubCreated { club_id: ClubId, owner: AccountId, name: Vec<u8>, fee: Balance },
    /// A club has a new owner.
    ClubTransferred { club_id: ClubId, old_owner: AccountId, new_owner: AccountId },
    /// A club has a new annual fee.
    ClubAnnualFeeSet { club_id: ClubId, old_fee: Balance, new_fee: Balance },
    /// A new member is added to the club; inactive if the fee could not be charged.
    MemberAdded { club_id: ClubId, member: AccountId, status: MemberStatus },
    /// A membership is extended.
    MembershipExtended { club_id: ClubId, member: AccountId, new_status: MemberStatus },
}

/// What an `Event` holds, as mathematical values.
pub ghost enum EventView {
    ClubCreated { club_id: ClubId, owner: AccountId, name: Seq<u8>, fee: Balance },
    ClubTransferred { club_id: ClubId, old_owner: AccountId, new_owner: AccountId },
    ClubAnnualFeeSet { club_id: ClubId, old_fee: Balance, new_fee: Balance },
    MemberAdded { club_id: ClubId, member: AccountId, status: MemberStatus },
    MembershipExtended { club_id: ClubId, member: AccountId, new_status: MemberStatus },
}

impl View for Event {
    type V = EventView;

    open spec fn view(&self) -> EventView {
        match *self {
            Event::ClubCreated { club_id, owner, name, fee } => EventView::ClubCreated {
                club_id,
                owner,
                name: name@,
                fee,
            },
            Event::ClubTransferred { club_id, old_owner, new_owner } => EventView::ClubTransferred {
                club_id,
                old_owner,
                new_owner,
            },
            Event::ClubAnnualFeeSet { club_id, old_fee, new_fee } => EventView::ClubAnnualFeeSet {
                club_id,
                old_fee,
                new_fee,
            },
            Event::MemberAdded { club_id, member, status } => EventView::MemberAdded {
                club_id,
                member,
                status,
            },
            Event::MembershipExtended { club_id, member, new_status } => EventView::MembershipExtended {
                club_id,
                member,
                new_status,
            },
        }
    }
}

} // verus!
