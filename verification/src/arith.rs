//! Fees and time windows: overflow-checked multiplication for what is owed,
//! saturating addition for how long a payment lasts.

use crate::types::{Balance, BlockNumber, ClubId};
use vstd::prelude::*;

verus! {

/// What `years` years of membership cost at an annual `fee`, as an exact integer.
pub open spec fn total_fee(fee: Balance, years: u8) -> int {
    fee * years
}

/// The block through which a payment for `years` years lasts when it starts at
/// `from`: the exact sum, clamped at the greatest block number.
pub open spec fn paid_until(from: BlockNumber, years: u8, year_in_blocks: BlockNumber) -> BlockNumber {
    let end = from + years * year_in_blocks;
    if end <= BlockNumber::MAX {
        end as BlockNumber
    } else {
        BlockNumber::MAX
    }
}

/// The later of a recorded expiry and the present: where an extension starts.
pub open spec fn extension_start(until: BlockNumber, now: BlockNumber) -> BlockNumber {
    if until >= now {
        until
    } else {
        now
    }
}

/// Whole years that remain between `now` and `baseline`; none once `baseline` is past.
pub open spec fn years_left(baseline: BlockNumber, now: BlockNumber, year_in_blocks: BlockNumber) -> int
    recommends
        year_in_blocks > 0,
{
    if baseline >= now {
        (baseline - now) / (year_in_blocks as int)
    } else {
        0
    }
}

/// `num_traits::CheckedMul::checked_mul` for `u64`, reached through
/// `sp_runtime::traits`: the product where it fits in 64 bits, nothing otherwise.
#[verifier::external_body]
fn checked_mul_u64(a: u64, b: u64) -> (r: Option<u64>)
    ensures
        r == if a * b <= u64::MAX {
            Some((a * b) as u64)
        } else {
            None::<u64>
        },
{
    frame_support::sp_runtime::traits::CheckedMul::checked_mul(&a, &b)
}

/// `num_traits::CheckedDiv::checked_div` for `u64`, reached through
/// `sp_runtime::traits`: the quotient rounded down, nothing for a zero divisor.
#[verifier::external_body]
fn checked_div_u64(a: u64, b: u64) -> (r: Option<u64>)
    ensures
        r == if b == 0 {
            None::<u64>
        } else {
            Some((a / b) as u64)
        },
{
    frame_support::sp_runtime::traits::CheckedDiv::checked_div(&a, &b)
}

/// `sp_runtime::Saturating::saturating_add` for `u64`: the sum, or the greatest
/// `u64` where the sum does not fit.
#[verifier::external_body]
fn saturating_add_u64(a: u64, b: u64) -> (r: u64)
    ensures
        r == if a + b <= u64::MAX {
            (a + b) as u64
        } else {
            u64::MAX
        },
{
    frame_support::sp_runtime::Saturating::saturating_add(a, b)
}

/// `sp_runtime::Saturating::saturating_sub` for `u64`: the difference, or zero
/// where the second number is the greater.
#[verifier::external_body]
fn saturating_sub_u64(a: u64, b: u64) -> (r: u64)
    ensures
        r == if a >= b {
            (a - b) as u64
        } else {
            0u64
        },
{
    frame_support::sp_runtime::Saturating::saturating_sub(a, b)
}

/// `sp_runtime::Saturating::saturating_mul` for `u64`: the product, or the
/// greatest `u64` where the product does not fit.
#[verifier::external_body]
fn saturating_mul_u64(a: u64, b: u64) -> (r: u64)
    ensures
        r == if a * b <= u64::MAX {
            (a * b) as u64
        } else {
            u64::MAX
        },
{
    frame_support::sp_runtime::Saturating::saturating_mul(a, b)
}

/// `frame_support::traits::Incrementable::increment` for `u32`: the next
/// number, nothing after the greatest `u32`.
#[verifier::external_body]
fn increment_u32(id: u32) -> (r: Option<u32>)
    ensures
        r == if id < u32::MAX {
            Some((id + 1) as u32)
        } else {
            None::<u32>
        },
{
    frame_support::traits::Incrementable::increment(&id)
}

/// The identifier that follows `id`, if there is one.
pub fn next_club_id(id: ClubId) -> (r: Option<ClubId>)
    ensures
        r is Some <==> id < ClubId::MAX,
        r matches Some(next) ==> next == id + 1,
{
    increment_u32(id)
}

/// The fee for `years` years at an annual `fee`, or nothing if it does not fit
/// in a `Balance`.
pub fn membership_fee(fee: Balance, years: u8) -> (r: Option<Balance>)
    ensures
        r is Some <==> total_fee(fee, years) <= Balance::MAX,
        r matches Some(owed) ==> owed == total_fee(fee, years),
{
    checked_mul_u64(fee, years as u64)
}

/// The block through which a payment for `years` years lasts when it starts at `from`.
pub fn expiry(from: BlockNumber, years: u8, year_in_blocks: BlockNumber) -> (r: BlockNumber)
    ensures
        r == paid_until(from, years, year_in_blocks),
{
    let span: u64 = saturating_mul_u64(year_in_blocks, years as u64);
    assert(year_in_blocks * (years as u64) == years * year_in_blocks) by (nonlinear_arith);
    saturating_add_u64(from, span)
}

/// The later of a recorded expiry and the present.
pub fn start_of_extension(until: BlockNumber, now: BlockNumber) -> (r: BlockNumber)
    ensures
        r == extension_start(until, now),
{
    if until >= now {
        until
    } else {
        now
    }
}

/// Whole years between `now` and `baseline`, or nothing where a year has no length.
pub fn remaining_years(baseline: BlockNumber, now: BlockNumber, year_in_blocks: BlockNumber) -> (r:
    Option<BlockNumber>)
    ensures
        r is Some <==> year_in_blocks != 0,
        r matches Some(left) ==> left == years_left(baseline, now, year_in_blocks),
{
    let blocks_left: u64 = saturating_sub_u64(baseline, now);
    checked_div_u64(blocks_left, year_in_blocks)
}

/// Whether `years` more years, on top of those that remain, stay strictly
/// under the greatest number of years allowed.
pub fn within_limit(left: BlockNumber, years: u8, max_years: u8) -> (r: bool)
    ensures
        r == (left + years < max_years),
{
    saturating_add_u64(left, years as u64) < max_years as u64
}

} // verus!
