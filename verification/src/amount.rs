//! Exact decimal amounts: the executable `Amount` and its mathematical view.

use crate::decimal::{
    checked_add, checked_add_result, checked_sub, checked_sub_result, representable, MAX_MANTISSA,
    MAX_SCALE,
};
use vstd::prelude::*;
use vstd::std_specs::cmp::PartialEqSpecImpl;

verus! {

/// Ten to the power of `n`.
pub open spec fn pow10(n: nat) -> int
    decreases n,
{
    if n == 0 {
        1
    } else {
        10 * pow10((n - 1) as nat)
    }
}

/// Powers of ten are positive.
pub proof fn lemma_pow10_positive(n: nat)
    ensures
        pow10(n) >= 1,
        n >= 1 ==> pow10(n) >= 10,
    decreases n,
{
    if n > 0 {
        lemma_pow10_positive((n - 1) as nat);
    }
}

/// The exponents of a product of powers of ten add up.
pub proof fn lemma_pow10_adds(a: nat, b: nat)
    ensures
        pow10(a + b) == pow10(a) * pow10(b),
    decreases a,
{
    if a > 0 {
        lemma_pow10_adds((a - 1) as nat, b);
        assert(pow10(a + b) == 10 * pow10((a - 1 + b) as nat));
        assert(10 * (pow10((a - 1) as nat) * pow10(b)) == (10 * pow10((a - 1) as nat)) * pow10(b))
            by (nonlinear_arith);
    } else {
        assert(pow10(a) * pow10(b) == pow10(b));
    }
}

/// A decimal number as mathematics sees it: `mantissa / 10^scale`.
///
/// Two decimals with different scales may stand for the same number, as `1.0`
/// and `1.00` do; `units` tells them apart from those that do not.
pub struct Dec {
    pub mantissa: int,
    pub scale: int,
}

impl Dec {
    /// The decimal zero, with no digit after the point.
    pub open spec fn zero() -> Dec {
        Dec { mantissa: 0, scale: 0 }
    }

    /// Whether an `Amount` can hold this decimal: a mantissa of at most 96
    /// bits and at most 28 digits after the point.
    pub open spec fn in_domain(self) -> bool {
        representable(self.mantissa, self.scale)
    }

    /// The number in units of `10^-28`. For a decimal in the domain this is an
    /// integer, and two decimals are the same number exactly if their units
    /// are equal.
    pub open spec fn units(self) -> int {
        self.mantissa * pow10((MAX_SCALE - self.scale) as nat)
    }

    /// Whether the number is below zero.
    pub open spec fn is_negative(self) -> bool {
        self.mantissa < 0
    }

    /// The sum that the decimal arithmetic gives for `self + rhs`, or `None`
    /// where it reports an overflow. The sum is rounded where the exact one
    /// does not fit the domain; see `adds_exactly`.
    pub open spec fn checked_add(self, rhs: Dec) -> Option<Dec> {
        match checked_add_result(self.mantissa, self.scale, rhs.mantissa, rhs.scale) {
            Some((mantissa, scale)) => Some(Dec { mantissa, scale }),
            None => None,
        }
    }

    /// The difference that the decimal arithmetic gives for `self - rhs`, or
    /// `None` where it reports an overflow. The difference is rounded where
    /// the exact one does not fit the domain; see `subtracts_exactly`.
    pub open spec fn checked_sub(self, rhs: Dec) -> Option<Dec> {
        match checked_sub_result(self.mantissa, self.scale, rhs.mantissa, rhs.scale) {
            Some((mantissa, scale)) => Some(Dec { mantissa, scale }),
            None => None,
        }
    }

    /// Whether `self + rhs` is computed without overflow and without rounding.
    pub open spec fn adds_exactly(self, rhs: Dec) -> bool {
        match self.checked_add(rhs) {
            Some(sum) => sum.units() == self.units() + rhs.units(),
            None => false,
        }
    }

    /// Whether `self - rhs` is computed without overflow and without rounding.
    pub open spec fn subtracts_exactly(self, rhs: Dec) -> bool {
        match self.checked_sub(rhs) {
            Some(difference) => difference.units() == self.units() - rhs.units(),
            None => false,
        }
    }
}

/// The view of an amount that may be absent.
pub open spec fn view_of(amount: Option<Amount>) -> Option<Dec> {
    match amount {
        Some(a) => Some(a@),
        None => None,
    }
}

/// An exact decimal amount of money: `mantissa / 10^scale`, with a mantissa of
/// at most 96 bits and at most 28 digits after the point.
#[derive(Clone, Copy, Debug)]
pub struct Amount {
    mantissa: i128,
    scale: u32,
}

impl View for Amount {
    type V = Dec;

    closed spec fn view(&self) -> Dec {
        Dec { mantissa: self.mantissa as int, scale: self.scale as int }
    }
}

impl Amount {
    #[verifier::type_invariant]
    spec fn in_domain(self) -> bool {
        representable(self.mantissa as int, self.scale as int)
    }

    /// The amount `mantissa / 10^scale`, or `None` where the mantissa needs
    /// more than 96 bits or the scale is above 28.
    pub fn new(mantissa: i128, scale: u32) -> (r: Option<Amount>)
        ensures
            representable(mantissa as int, scale as int) ==> view_of(r) == Some(
                Dec { mantissa: mantissa as int, scale: scale as int },
            ),
            !representable(mantissa as int, scale as int) ==> r is None,
    {
        if scale <= MAX_SCALE && -MAX_MANTISSA <= mantissa && mantissa <= MAX_MANTISSA {
            Some(Amount { mantissa, scale })
        } else {
            None
        }
    }

    /// The whole number `n`.
    pub fn from_int(n: i64) -> (r: Amount)
        ensures
            r@ == (Dec { mantissa: n as int, scale: 0 }),
    {
        Amount { mantissa: n as i128, scale: 0 }
    }

    /// The amount zero, with no digit after the point.
    pub fn zero() -> (r: Amount)
        ensures
            r@ == Dec::zero(),
    {
        Amount { mantissa: 0, scale: 0 }
    }

    /// The largest amount: `2^96 - 1`, with no digit after the point.
    pub fn max() -> (r: Amount)
        ensures
            r@ == (Dec { mantissa: MAX_MANTISSA as int, scale: 0 }),
    {
        Amount { mantissa: MAX_MANTISSA, scale: 0 }
    }

    /// The mantissa: the amount is `mantissa / 10^scale`.
    pub fn mantissa(&self) -> (m: i128)
        ensures
            m == self@.mantissa,
            self@.in_domain(),
    {
        proof {
            use_type_invariant(self);
        }
        self.mantissa
    }

    /// The number of digits after the decimal point.
    pub fn scale(&self) -> (s: u32)
        ensures
            s == self@.scale,
            self@.in_domain(),
    {
        proof {
            use_type_invariant(self);
        }
        self.scale
    }

    /// Whether the amount is below zero.
    pub fn is_negative(&self) -> (r: bool)
        ensures
            r == self@.is_negative(),
    {
        self.mantissa < 0
    }

    /// The sum of two amounts as the decimal arithmetic gives it, or `None` on
    /// overflow.
    pub fn checked_add(self, rhs: Amount) -> (r: Option<Amount>)
        ensures
            view_of(r) == self@.checked_add(rhs@),
    {
        proof {
            use_type_invariant(self);
            use_type_invariant(rhs);
        }
        match checked_add(self.mantissa, self.scale, rhs.mantissa, rhs.scale) {
            Some((mantissa, scale)) => Some(Amount { mantissa, scale }),
            None => None,
        }
    }

    /// The difference of two amounts as the decimal arithmetic gives it, or
    /// `None` on overflow.
    pub fn checked_sub(self, rhs: Amount) -> (r: Option<Amount>)
        ensures
            view_of(r) == self@.checked_sub(rhs@),
    {
        proof {
            use_type_invariant(self);
            use_type_invariant(rhs);
        }
        match checked_sub(self.mantissa, self.scale, rhs.mantissa, rhs.scale) {
            Some((mantissa, scale)) => Some(Amount { mantissa, scale }),
            None => None,
        }
    }

    /// Whether two amounts are the same number, where `low` has the smaller
    /// scale: `low` is brought to the scale of `high` digit by digit, and is
    /// known to differ as soon as it leaves the domain.
    fn same_number(low: &Amount, high: &Amount) -> (r: bool)
        requires
            low.scale <= high.scale,
        ensures
            r == (low@.units() == high@.units()),
    {
        proof {
            use_type_invariant(low);
            use_type_invariant(high);
        }
        let mut mantissa: i128 = low.mantissa;
        let mut scale: u32 = low.scale;
        while scale < high.scale
            invariant
                low.scale <= scale <= high.scale <= MAX_SCALE,
                -MAX_MANTISSA <= mantissa <= MAX_MANTISSA,
                -MAX_MANTISSA <= high.mantissa <= MAX_MANTISSA,
                mantissa == low.mantissa * pow10((scale - low.scale) as nat),
            decreases high.scale - scale,
        {
            if mantissa > MAX_MANTISSA / 10 || mantissa < -(MAX_MANTISSA / 10) {
                proof {
                    lemma_scaled_up_differs(mantissa as int, low@, high@, scale as int);
                }
                return false;
            }
            proof {
                lemma_pow10_adds((scale - low.scale) as nat, 1);
                assert(pow10(1) == 10) by {
                    reveal_with_fuel(pow10, 2);
                }
                assert(low.mantissa * (pow10((scale - low.scale) as nat) * 10) == (low.mantissa
                    * pow10((scale - low.scale) as nat)) * 10) by (nonlinear_arith);
            }
            mantissa = mantissa * 10;
            scale = scale + 1;
        }
        proof {
            lemma_scaled_up_units(mantissa as int, low@, high@, scale as int);
            lemma_pow10_positive((MAX_SCALE - high.scale) as nat);
            let p = pow10((MAX_SCALE - high.scale) as nat);
            assert((mantissa * p == high.mantissa * p) == (mantissa == high.mantissa))
                by (nonlinear_arith)
                requires
                    p >= 1,
            ;
        }
        mantissa == high.mantissa
    }
}

/// Where `m` is the mantissa of `low` at the scale `scale`, between the scales
/// of `low` and `high`, the units of `low` are `m` times the remaining power
/// of ten.
proof fn lemma_scaled_up_units(m: int, low: Dec, high: Dec, scale: int)
    requires
        0 <= low.scale <= scale <= high.scale <= MAX_SCALE,
        m == low.mantissa * pow10((scale - low.scale) as nat),
    ensures
        low.units() == m * pow10((MAX_SCALE - scale) as nat),
{
    let up = pow10((scale - low.scale) as nat);
    let rest = pow10((MAX_SCALE - scale) as nat);
    lemma_pow10_adds((scale - low.scale) as nat, (MAX_SCALE - scale) as nat);
    assert(low.mantissa * (up * rest) == (low.mantissa * up) * rest) by (nonlinear_arith);
}

/// Where the mantissa of `low`, brought to a scale below that of `high`, can
/// take no further digit, `low` is a number that `high` cannot be.
proof fn lemma_scaled_up_differs(m: int, low: Dec, high: Dec, scale: int)
    requires
        0 <= low.scale <= scale < high.scale <= MAX_SCALE,
        m == low.mantissa * pow10((scale - low.scale) as nat),
        m > MAX_MANTISSA / 10 || m < -(MAX_MANTISSA / 10),
        -MAX_MANTISSA <= high.mantissa <= MAX_MANTISSA,
    ensures
        low.units() != high.units(),
{
    lemma_scaled_up_units(m, low, high, scale);
    let gap = pow10((high.scale - scale) as nat);
    let rest = pow10((MAX_SCALE - high.scale) as nat);
    lemma_pow10_adds((high.scale - scale) as nat, (MAX_SCALE - high.scale) as nat);
    lemma_pow10_positive((high.scale - scale) as nat);
    lemma_pow10_positive((MAX_SCALE - high.scale) as nat);
    assert(m * (gap * rest) == (m * gap) * rest) by (nonlinear_arith);
    assert(m * gap > MAX_MANTISSA || m * gap < -MAX_MANTISSA) by (nonlinear_arith)
        requires
            gap >= 10,
            m > MAX_MANTISSA / 10 || m < -(MAX_MANTISSA / 10),
    ;
    assert((m * gap) * rest != high.mantissa * rest) by (nonlinear_arith)
        requires
            rest >= 1,
            m * gap != high.mantissa,
    ;
}

impl PartialEq for Amount {
    /// Two amounts are equal where they are the same number, whatever their
    /// scales: `1.0 == 1.00`.
    fn eq(&self, other: &Amount) -> (r: bool) {
        if self.scale <= other.scale {
            Amount::same_number(self, other)
        } else {
            Amount::same_number(other, self)
        }
    }
}

impl PartialEqSpecImpl for Amount {
    open spec fn obeys_eq_spec() -> bool {
        true
    }

    open spec fn eq_spec(&self, other: &Amount) -> bool {
        self@.units() == other@.units()
    }
}

impl Default for Amount {
    /// The amount zero.
    fn default() -> (r: Amount)
        ensures
            r@ == Dec::zero(),
    {
        Amount::zero()
    }
}

} // verus!
