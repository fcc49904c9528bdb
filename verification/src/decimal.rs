//! The boundary to the `rust_decimal` crate, which does the arithmetic.
//!
//! A decimal crosses this boundary as two plain integers: its mantissa and its
//! scale, which stand for `mantissa / 10^scale`. Nothing in this module is
//! proved. The sums and differences that `rust_decimal` computes are rounded
//! where the exact result does not fit in 96 bits at the larger of the two
//! scales, so they are not written out here: each gets a name, and the
//! contracts of the ledger speak of that name.

use rust_decimal::Decimal;
use vstd::prelude::*;

verus! {

/// The largest scale of a decimal: it has at most 28 digits after the point.
pub const MAX_SCALE: u32 = 28;

/// The largest mantissa of a decimal, `2^96 - 1`.
pub const MAX_MANTISSA: i128 = 79_228_162_514_264_337_593_543_950_335;

/// Whether `mantissa / 10^scale` is a value of `rust_decimal::Decimal`.
pub open spec fn representable(mantissa: int, scale: int) -> bool {
    &&& -MAX_MANTISSA <= mantissa <= MAX_MANTISSA
    &&& 0 <= scale <= MAX_SCALE
}

/// What `Decimal::checked_add` returns for the decimals
/// `a_mantissa / 10^a_scale` and `b_mantissa / 10^b_scale`: the mantissa and
/// scale of the sum, or `None` where it reports an overflow.
pub uninterp spec fn checked_add_result(
    a_mantissa: int,
    a_scale: int,
    b_mantissa: int,
    b_scale: int,
) -> Option<(int, int)>;

/// What `Decimal::checked_sub` returns for the decimals
/// `a_mantissa / 10^a_scale` and `b_mantissa / 10^b_scale`: the mantissa and
/// scale of the difference, or `None` where it reports an overflow.
pub uninterp spec fn checked_sub_result(
    a_mantissa: int,
    a_scale: int,
    b_mantissa: int,
    b_scale: int,
) -> Option<(int, int)>;

/// Calls `rust_decimal::Decimal::checked_add` on two decimals built with
/// `Decimal::from_i128_with_scale`, and hands back the mantissa and scale of
/// the sum. The contract claims that the outcome is a function of the four
/// integers alone, and that a sum, where there is one, is again a decimal:
/// its mantissa has at most 96 bits and its scale is at most 28. The
/// `requires` keeps out the integers on which the constructor panics.
#[verifier::external_body]
pub(crate) fn checked_add(a_mantissa: i128, a_scale: u32, b_mantissa: i128, b_scale: u32) -> (r:
    Option<(i128, u32)>)
    requires
        representable(a_mantissa as int, a_scale as int),
        representable(b_mantissa as int, b_scale as int),
    ensures
        match r {
            Some((m, s)) => checked_add_result(
                a_mantissa as int,
                a_scale as int,
                b_mantissa as int,
                b_scale as int,
            ) == Some((m as int, s as int)) && representable(m as int, s as int),
            None => checked_add_result(
                a_mantissa as int,
                a_scale as int,
                b_mantissa as int,
                b_scale as int,
            ) is None,
        },
{
    let a = Decimal::from_i128_with_scale(a_mantissa, a_scale);
    let b = Decimal::from_i128_with_scale(b_mantissa, b_scale);
    match a.checked_add(b) {
        Some(sum) => Some((sum.mantissa(), sum.scale())),
        None => None,
    }
}

/// Calls `rust_decimal::Decimal::checked_sub` on two decimals built with
/// `Decimal::from_i128_with_scale`, and hands back the mantissa and scale of
/// the difference. The contract claims that the outcome is a function of the
/// four integers alone, and that a difference, where there is one, is again a
/// decimal: its mantissa has at most 96 bits and its scale is at most 28. The
/// `requires` keeps out the integers on which the constructor panics.
#[verifier::external_body]
pub(crate) fn checked_sub(a_mantissa: i128, a_scale: u32, b_mantissa: i128, b_scale: u32) -> (r:
    Option<(i128, u32)>)
    requires
        representable(a_mantissa as int, a_scale as int),
        representable(b_mantissa as int, b_scale as int),
    ensures
        match r {
            Some((m, s)) => checked_sub_result(
                a_mantissa as int,
                a_scale as int,
                b_mantissa as int,
                b_scale as int,
            ) == Some((m as int, s as int)) && representable(m as int, s as int),
            None => checked_sub_result(
                a_mantissa as int,
                a_scale as int,
                b_mantissa as int,
                b_scale as int,
            ) is None,
        },
{
    let a = Decimal::from_i128_with_scale(a_mantissa, a_scale);
    let b = Decimal::from_i128_with_scale(b_mantissa, b_scale);
    match a.checked_sub(b) {
        Some(difference) => Some((difference.mantissa(), difference.scale())),
        None => None,
    }
}

} // verus!
