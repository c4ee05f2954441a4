//! An exact number type: binary fixed point with saturation.

use crate::scalar::{Real, Scalar};
use vstd::prelude::*;

verus! {

/// How many raw units make one.
pub const FIXED_ONE: i64 = 65536;

/// A fixed-point number: `raw / 65536`, saturating at the ends of `i64`.
#[derive(Clone, Copy, Debug, PartialEq, Eq, Structural)]
pub struct Fixed {
    pub raw: i64,
}

/// The nearest `i64` to an integer.
pub open spec fn saturate(value: int) -> i64 {
    if value > i64::MAX {
        i64::MAX
    } else if value < i64::MIN {
        i64::MIN
    } else {
        value as i64
    }
}

/// An integer divided by a positive one, rounded towards minus infinity.
pub open spec fn floor_div(value: int, unit: int) -> int
    recommends
        unit > 0,
{
    if value >= 0 {
        value / unit
    } else {
        -((-value + unit - 1) / unit)
    }
}

/// An integer divided by a positive one, rounded towards plus infinity.
pub open spec fn ceil_div(value: int, unit: int) -> int
    recommends
        unit > 0,
{
    -floor_div(-value, unit)
}

/// An integer divided by a nonzero one, rounded towards zero.
pub open spec fn trunc_div(value: int, by: int) -> int
    recommends
        by != 0,
{
    if value >= 0 && by > 0 {
        value / by
    } else if value >= 0 {
        -(value / (-by))
    } else if by > 0 {
        -((-value) / by)
    } else {
        (-value) / (-by)
    }
}

/// The raw quotient of two raw values; a division by zero saturates by the
/// sign of the dividend.
pub open spec fn raw_quotient(value: int, by: int) -> int {
    if by == 0 {
        if value > 0 {
            i64::MAX as int
        } else if value < 0 {
            i64::MIN as int
        } else {
            0
        }
    } else {
        trunc_div(value * 65536, by)
    }
}

/// Whether `root` is the whole part of the square root of `n`.
pub open spec fn is_sqrt(root: int, n: int) -> bool {
    0 <= root && root * root <= n < (root + 1) * (root + 1)
}

/// The whole part of the square root of a number that is not negative.
pub open spec fn isqrt(n: int) -> int {
    choose|root: int| is_sqrt(root, n)
}

/// A number has one whole square root only.
pub proof fn lemma_sqrt_unique(one: int, other: int, n: int)
    requires
        is_sqrt(one, n),
        is_sqrt(other, n),
    ensures
        one == other,
{
    if one < other {
        assert((one + 1) * (one + 1) <= other * other) by (nonlinear_arith)
            requires
                0 <= one,
                one + 1 <= other,
        ;
    }
    if other < one {
        assert((other + 1) * (other + 1) <= one * one) by (nonlinear_arith)
            requires
                0 <= other,
                other + 1 <= one,
        ;
    }
}

fn isqrt_wide(n: u128) -> (root: u128)
    requires
        n < 0x8000_0000_0000_0000_0000,
    ensures
        root == isqrt(n as int),
        root < 0x100_0000_0000,
{
    let mut low: u128 = 0;
    let mut high: u128 = 0x100_0000_0000;
    assert(0x100_0000_0000 * 0x100_0000_0000 == 0x1_0000_0000_0000_0000_0000) by (nonlinear_arith);
    while high - low > 1
        invariant
            low < high <= 0x100_0000_0000,
            low * low <= n < high * high,
        decreases high - low,
    {
        let middle: u128 = low + (high - low) / 2;
        assert(middle * middle <= 0x100_0000_0000 * 0x100_0000_0000) by (nonlinear_arith)
            requires
                middle <= 0x100_0000_0000,
        ;
        if middle * middle <= n {
            low = middle;
        } else {
            high = middle;
        }
    }
    proof {
        assert(is_sqrt(low as int, n as int));
        lemma_sqrt_unique(low as int, isqrt(n as int), n as int);
    }
    low
}

fn saturate_wide(value: i128) -> (out: i64)
    ensures
        out == saturate(value as int),
{
    if value > i64::MAX as i128 {
        i64::MAX
    } else if value < i64::MIN as i128 {
        i64::MIN
    } else {
        value as i64
    }
}

fn floor_div_wide(value: i128, unit: i128) -> (out: i128)
    requires
        0 < unit <= 65536,
        -0x4000_0000_0000_0000_0000_0000_0000_0000 <= value <= 0x4000_0000_0000_0000_0000_0000_0000_0000,
    ensures
        out == floor_div(value as int, unit as int),
        -0x4000_0000_0000_0000_0000_0000_0000_0000 <= out <= 0x4000_0000_0000_0000_0000_0000_0000_0000,
{
    if value >= 0 {
        let q: i128 = value / unit;
        assert(0 <= q <= value) by (nonlinear_arith)
            requires
                q == value as int / unit as int,
                value >= 0,
                unit > 0,
        ;
        q
    } else {
        let up: i128 = -value + unit - 1;
        let q: i128 = up / unit;
        assert(0 <= q <= up) by (nonlinear_arith)
            requires
                q == up as int / unit as int,
                up >= 0,
                unit > 0,
        ;
        assert(q <= -value) by (nonlinear_arith)
            requires
                q == up as int / unit as int,
                up == -value + unit - 1,
                value < 0,
                unit > 0,
        ;
        -q
    }
}

impl Fixed {
    /// The number with the given raw value.
    pub fn from_raw(raw: i64) -> (number: Fixed)
        ensures
            number.raw == raw,
    {
        Fixed { raw }
    }
}

impl Scalar for Fixed {
    open spec fn zero_spec() -> Fixed {
        Fixed { raw: 0 }
    }

    open spec fn one_spec() -> Fixed {
        Fixed { raw: 65536 }
    }

    open spec fn add_spec(self, rhs: Fixed) -> Fixed {
        Fixed { raw: saturate(self.raw + rhs.raw) }
    }

    open spec fn sub_spec(self, rhs: Fixed) -> Fixed {
        Fixed { raw: saturate(self.raw - rhs.raw) }
    }

    open spec fn mul_spec(self, rhs: Fixed) -> Fixed {
        Fixed { raw: saturate(floor_div(self.raw * rhs.raw, 65536)) }
    }

    open spec fn lt_spec(self, rhs: Fixed) -> bool {
        self.raw < rhs.raw
    }

    open spec fn sign_positive_spec(self) -> bool {
        self.raw >= 0
    }

    fn zero() -> (z: Fixed) {
        Fixed { raw: 0 }
    }

    fn one() -> (o: Fixed) {
        Fixed { raw: FIXED_ONE }
    }

    fn add(self, rhs: Fixed) -> (sum: Fixed) {
        let wide: i128 = self.raw as i128 + rhs.raw as i128;
        Fixed { raw: saturate_wide(wide) }
    }

    fn sub(self, rhs: Fixed) -> (difference: Fixed) {
        let wide: i128 = self.raw as i128 - rhs.raw as i128;
        Fixed { raw: saturate_wide(wide) }
    }

    fn mul(self, rhs: Fixed) -> (product: Fixed) {
        let a: i128 = self.raw as i128;
        let b: i128 = rhs.raw as i128;
        assert(-0x4000_0000_0000_0000_0000_0000_0000_0000 <= a * b
            <= 0x4000_0000_0000_0000_0000_0000_0000_0000) by (nonlinear_arith)
            requires
                -0x8000_0000_0000_0000 <= a <= 0x7fff_ffff_ffff_ffff,
                -0x8000_0000_0000_0000 <= b <= 0x7fff_ffff_ffff_ffff,
        ;
        let wide: i128 = a * b;
        Fixed { raw: saturate_wide(floor_div_wide(wide, 65536)) }
    }

    fn lt(self, rhs: Fixed) -> (below: bool) {
        self.raw < rhs.raw
    }

    fn is_sign_positive(self) -> (positive: bool) {
        self.raw >= 0
    }
}

fn trunc_div_wide(value: i128, by: i128) -> (out: i128)
    requires
        by != 0,
        -0x4000_0000_0000_0000_0000_0000_0000_0000 <= value <= 0x4000_0000_0000_0000_0000_0000_0000_0000,
        -0x4000_0000_0000_0000_0000_0000_0000_0000 <= by <= 0x4000_0000_0000_0000_0000_0000_0000_0000,
    ensures
        out == trunc_div(value as int, by as int),
        -0x4000_0000_0000_0000_0000_0000_0000_0000 <= out <= 0x4000_0000_0000_0000_0000_0000_0000_0000,
{
    let top: i128 = if value >= 0 {
        value
    } else {
        -value
    };
    let bottom: i128 = if by > 0 {
        by
    } else {
        -by
    };
    let q: i128 = top / bottom;
    assert(0 <= q <= top) by (nonlinear_arith)
        requires
            q == top as int / bottom as int,
            top >= 0,
            bottom > 0,
    ;
    if (value >= 0) == (by > 0) {
        q
    } else {
        -q
    }
}

impl Real for Fixed {
    open spec fn half_spec() -> Fixed {
        Fixed { raw: 32768 }
    }

    open spec fn from_index_spec(index: usize) -> Fixed {
        Fixed { raw: saturate(index * 65536) }
    }

    open spec fn from_whole_spec(whole: i64) -> Fixed {
        Fixed { raw: saturate(whole * 65536) }
    }

    open spec fn div_spec(self, rhs: Fixed) -> Fixed {
        Fixed { raw: saturate(raw_quotient(self.raw as int, rhs.raw as int)) }
    }

    /// The root of what is not positive counts as zero.
    open spec fn sqrt_spec(self) -> Fixed {
        Fixed {
            raw: if self.raw <= 0 {
                0
            } else {
                isqrt(self.raw * 65536) as i64
            },
        }
    }

    open spec fn floor_spec(self) -> i64 {
        saturate(floor_div(self.raw as int, 65536))
    }

    open spec fn ceil_spec(self) -> i64 {
        saturate(ceil_div(self.raw as int, 65536))
    }

    fn half() -> (h: Fixed) {
        Fixed { raw: 32768 }
    }

    fn from_index(index: usize) -> (number: Fixed) {
        let wide: i128 = index as i128 * 65536;
        Fixed { raw: saturate_wide(wide) }
    }

    fn from_whole(whole: i64) -> (number: Fixed) {
        let wide: i128 = whole as i128 * 65536;
        Fixed { raw: saturate_wide(wide) }
    }

    fn div(self, rhs: Fixed) -> (quotient: Fixed) {
        if rhs.raw == 0 {
            if self.raw > 0 {
                Fixed { raw: i64::MAX }
            } else if self.raw < 0 {
                Fixed { raw: i64::MIN }
            } else {
                Fixed { raw: 0 }
            }
        } else {
            let wide: i128 = self.raw as i128 * 65536;
            Fixed { raw: saturate_wide(trunc_div_wide(wide, rhs.raw as i128)) }
        }
    }

    fn sqrt(self) -> (root: Fixed) {
        if self.raw <= 0 {
            Fixed { raw: 0 }
        } else {
            let wide: u128 = self.raw as u128 * 65536;
            Fixed { raw: isqrt_wide(wide) as i64 }
        }
    }

    fn floor(self) -> (whole: i64) {
        saturate_wide(floor_div_wide(self.raw as i128, 65536))
    }

    fn ceil(self) -> (whole: i64) {
        let down: i128 = floor_div_wide(-(self.raw as i128), 65536);
        saturate_wide(-down)
    }
}

/// A multiple of the unit divided by the unit is the factor.
pub proof fn lemma_floor_div_multiple(factor: int)
    ensures
        floor_div(factor * 65536, 65536) == factor,
        floor_div(65536 * factor, 65536) == factor,
        ceil_div(factor * 65536, 65536) == factor,
{
    assert(65536 * factor == factor * 65536) by (nonlinear_arith);
    if factor >= 0 {
        assert((factor * 65536) / 65536 == factor) by (nonlinear_arith)
            requires
                factor >= 0,
        ;
    }
    if factor <= 0 {
        assert((-(factor * 65536) + 65535) / 65536 == -factor) by (nonlinear_arith)
            requires
                factor <= 0,
        ;
        assert(((-factor) * 65536) / 65536 == -factor) by (nonlinear_arith)
            requires
                factor <= 0,
        ;
        assert(-(factor * 65536) == (-factor) * 65536) by (nonlinear_arith);
    }
    if factor > 0 {
        assert((factor * 65536 + 65535) / 65536 == factor) by (nonlinear_arith)
            requires
                factor > 0,
        ;
    }
}

/// Multiplying by one, multiplying by zero, adding zero and taking zero
/// from one are exact on every fixed-point number.
pub proof fn lemma_fixed_exact(value: Fixed)
    ensures
        Fixed::one_spec().mul_spec(value) == value,
        Fixed::zero_spec().mul_spec(value) == Fixed::zero_spec(),
        value.add_spec(Fixed::zero_spec()) == value,
        Fixed::one_spec().sub_spec(Fixed::zero_spec()) == Fixed::one_spec(),
        value.sub_spec(value) == Fixed::zero_spec(),
{
    lemma_floor_div_multiple(value.raw as int);
    assert(0 * value.raw == 0) by (nonlinear_arith);
}

/// The greatest whole number that a fixed-point number can stand for
/// without saturating.
pub open spec fn whole_limit() -> int {
    0x7fff_ffff_ffff
}

/// A whole number within the limit is its own floor and ceiling as a
/// fixed-point number, and lies no way beyond its floor.
pub proof fn lemma_fixed_whole(whole: i64)
    requires
        -whole_limit() <= whole <= whole_limit(),
    ensures
        Fixed::from_whole_spec(whole).floor_spec() == whole,
        Fixed::from_whole_spec(whole).ceil_spec() == whole,
        Fixed::from_whole_spec(whole).sub_spec(
            Fixed::from_whole_spec(Fixed::from_whole_spec(whole).floor_spec()),
        ) == Fixed::zero_spec(),
{
    lemma_floor_div_multiple(whole as int);
    assert(-0x7fff_ffff_ffff_0000 <= whole * 65536 <= 0x7fff_ffff_ffff_0000) by (nonlinear_arith)
        requires
            -0x7fff_ffff_ffff <= whole <= 0x7fff_ffff_ffff,
    ;
}

} // verus!
