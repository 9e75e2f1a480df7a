//! The amount calculator and the fee resolver.
//!
//! Pure, deterministic arithmetic: given a quantity, a unit price, and the
//! effective fee percentage, the split is total, fee, and remainder, with
//! every intermediate checked against the 64-bit unsigned range.

use vstd::prelude::*;
use vstd::arithmetic::div_mod::lemma_div_is_ordered;
use vstd::arithmetic::div_mod::lemma_div_multiples_vanish;
use vstd::arithmetic::div_mod::lemma_div_pos_is_pos;
use vstd::arithmetic::mul::lemma_mul_inequality;

use crate::errors::ErrorCode;

verus! {

/// The gross amount of a purchase: units times unit price.
pub open spec fn spec_total_amount(units: u64, unit_price: u64) -> int {
    units * unit_price
}

/// The platform's cut: floor of total times fee percentage over 100.
pub open spec fn spec_fee_amount(units: u64, unit_price: u64, fee_percentage: u64) -> int {
    (units * unit_price * fee_percentage) / 100
}

/// The creator's remainder: total minus fee.
pub open spec fn spec_creator_amount(units: u64, unit_price: u64, fee_percentage: u64) -> int {
    spec_total_amount(units, unit_price) - spec_fee_amount(units, unit_price, fee_percentage)
}

/// Whether the split can be computed without any intermediate exceeding the
/// 64-bit unsigned range: both the total and the total scaled by the fee
/// percentage (before the division by 100) must fit.
pub open spec fn split_fits(units: u64, unit_price: u64, fee_percentage: u64) -> bool {
    spec_total_amount(units, unit_price) <= u64::MAX
        && units * unit_price * fee_percentage <= u64::MAX
}

/// The fee never exceeds the total, so the split conserves value exactly:
/// fee plus remainder is units times unit price, nothing is minted and
/// nothing is lost, and the fee is the floor of total times percentage over
/// 100.
pub proof fn lemma_split_conserves_total(units: u64, unit_price: u64, fee_percentage: u64)
    requires
        fee_percentage <= 100,
    ensures
        spec_fee_amount(units, unit_price, fee_percentage)
            + spec_creator_amount(units, unit_price, fee_percentage)
            == spec_total_amount(units, unit_price),
        0 <= spec_fee_amount(units, unit_price, fee_percentage)
            <= spec_total_amount(units, unit_price),
        spec_fee_amount(units, unit_price, fee_percentage)
            == spec_total_amount(units, unit_price) * fee_percentage / 100,
{
    let total = spec_total_amount(units, unit_price);
    assert(units * unit_price >= 0) by (nonlinear_arith);
    assert(units * unit_price * fee_percentage >= 0) by (nonlinear_arith);
    lemma_mul_inequality(fee_percentage as int, 100, total);
    assert(fee_percentage * total == total * fee_percentage) by (nonlinear_arith);
    assert(100 * total == total * 100) by (nonlinear_arith);
    lemma_div_is_ordered(total * fee_percentage, total * 100, 100);
    lemma_div_multiples_vanish(total, 100);
    lemma_div_pos_is_pos(total * fee_percentage, 100);
}

/// Resolution of the effective fee rate: a creator-specific override, while
/// one exists, unconditionally supersedes the platform default, whether it
/// is higher or lower; without one the default applies.
pub open spec fn spec_resolve_fee(platform_default: u64, creator_override: Option<u64>) -> u64 {
    match creator_override {
        Some(fee_percentage) => fee_percentage,
        None => platform_default,
    }
}

/// Decides the fee percentage a purchase is charged at.
pub fn resolve_fee(platform_default: u64, creator_override: Option<u64>) -> (r: u64)
    ensures
        r == spec_resolve_fee(platform_default, creator_override),
        creator_override is Some ==> r == creator_override->0,
        creator_override is None ==> r == platform_default,
{
    match creator_override {
        Some(fee_percentage) => fee_percentage,
        None => platform_default,
    }
}

/// Computes the split of a purchase: total, platform fee, and creator
/// remainder. Fails with `ArithmeticOverflow`, and only with it, exactly
/// when an intermediate would exceed the 64-bit unsigned range.
pub fn compute_split(units: u64, unit_price: u64, fee_percentage: u64) -> (r: Result<
    (u64, u64, u64),
    ErrorCode,
>)
    requires
        units > 0,
        unit_price > 0,
        fee_percentage <= 100,
    ensures
        r is Ok <==> split_fits(units, unit_price, fee_percentage),
        r matches Ok((total, fee, creator)) ==> {
            &&& total == spec_total_amount(units, unit_price)
            &&& fee == spec_fee_amount(units, unit_price, fee_percentage)
            &&& creator == spec_creator_amount(units, unit_price, fee_percentage)
            &&& fee + creator == total
            &&& fee <= total
        },
        r matches Err(e) ==> e == ErrorCode::ArithmeticOverflow,
{
    let total = match units.checked_mul(unit_price) {
        Some(t) => t,
        None => {
            return Err(ErrorCode::ArithmeticOverflow);
        },
    };
    let scaled = match total.checked_mul(fee_percentage) {
        Some(s) => s,
        None => {
            return Err(ErrorCode::ArithmeticOverflow);
        },
    };
    let fee = scaled / 100;
    proof {
        lemma_split_conserves_total(units, unit_price, fee_percentage);
    }
    let creator = total - fee;
    Ok((total, fee, creator))
}

} // verus!
