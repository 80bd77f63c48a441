//! Square root, trigonometric, exponential and logarithmic functions on
//! [`Fixed`] numbers.
//!
//! The square root is the exact floor of the real square root. The sine, the
//! cosine and the tangent are rounded from the sine with guard bits of
//! [`crate::wide`]. The others are truncated power series after a range
//! reduction; each is specified by the
//! spec function that spells out that reduction and series, and the executable
//! function is proved to compute it. Like the arithmetic, every function is
//! total and gives the undefined value outside its domain.

use vstd::prelude::*;
use crate::fixed::{
    from_wide, lemma_product_bound, round_div, round_div_wide, Fixed, LN_2_RAW, QUARTER_PI_RAW,
    SCALE,
};
use crate::wide::{sine, sine_spec, Wide, GUARD, HALF_PI_WIDE};

verus! {

/// Index of the last term kept in the arctangent series.
pub const ARCTANGENT_TERMS: u32 = 15;

/// Index of the last term kept in the logarithm series.
pub const LOGARITHM_TERMS: u32 = 12;

/// Index of the last term kept in the exponential series.
pub const EXPONENTIAL_TERMS: u32 = 13;

/// Raw representation of the tangent of pi / 8, above which the arctangent
/// shifts its argument by a quarter turn.
pub const TAN_EIGHTH_PI_RAW: i64 = 455432628212;

/// Largest power of two by which an exponential can be scaled and still fit.
pub const EXPONENT_MAX: i64 = 23;

/// Power of two below which an exponential rounds to zero.
pub const EXPONENT_MIN: i64 = -42;

/// `r` is the integer square root of `n`: the largest integer whose square
/// does not exceed `n`.
pub open spec fn is_floor_sqrt(n: int, r: int) -> bool {
    0 <= r && r * r <= n < (r + 1) * (r + 1)
}

/// The integer square root of `n`.
pub open spec fn floor_sqrt(n: int) -> int {
    choose|r: int| is_floor_sqrt(n, r)
}

/// There is only one integer square root.
pub proof fn lemma_floor_sqrt_unique(n: int, r: int, s: int)
    requires
        is_floor_sqrt(n, r),
        is_floor_sqrt(n, s),
    ensures
        r == s,
{
    if r < s {
        assert((r + 1) * (r + 1) <= s * s) by (nonlinear_arith)
            requires
                0 <= r,
                r + 1 <= s,
        ;
    } else if s < r {
        assert((s + 1) * (s + 1) <= r * r) by (nonlinear_arith)
            requires
                0 <= s,
                s + 1 <= r,
        ;
    }
}

/// Every natural number has an integer square root.
pub proof fn lemma_floor_sqrt_exists(n: nat)
    ensures
        is_floor_sqrt(n as int, floor_sqrt(n as int)),
    decreases n,
{
    if n == 0 {
        assert(is_floor_sqrt(0, 0));
    } else {
        lemma_floor_sqrt_exists((n - 1) as nat);
        let r = floor_sqrt(n - 1);
        assert((r + 2) * (r + 2) == (r + 1) * (r + 1) + 2 * r + 3) by (nonlinear_arith);
        if (r + 1) * (r + 1) <= n {
            assert(is_floor_sqrt(n as int, r + 1));
        } else {
            assert(is_floor_sqrt(n as int, r));
        }
    }
}

/// Integer square root by bisection on the root.
fn integer_sqrt(n: u128) -> (r: u128)
    requires
        n < 0x1_0000_0000_0000_0000_0000_0000_00,
    ensures
        is_floor_sqrt(n as int, r as int),
        r == floor_sqrt(n as int),
        r < 0x10_0000_0000_0000,
{
    let mut low: u128 = 0;
    let mut high: u128 = 0x10_0000_0000_0000;
    assert(high * high == 0x1_0000_0000_0000_0000_0000_0000_00) by (nonlinear_arith)
        requires
            high == 0x10_0000_0000_0000,
    ;
    while high - low > 1
        invariant
            low < high <= 0x10_0000_0000_0000,
            low * low <= n < high * high,
        decreases high - low,
    {
        let middle: u128 = low + (high - low) / 2;
        assert(middle * middle <= 0x1_0000_0000_0000_0000_0000_0000_00) by (nonlinear_arith)
            requires
                0 <= middle <= 0x10_0000_0000_0000,
        ;
        if middle * middle <= n {
            low = middle;
        } else {
            high = middle;
        }
    }
    proof {
        assert(is_floor_sqrt(n as int, low as int));
        lemma_floor_sqrt_unique(n as int, low as int, floor_sqrt(n as int));
    }
    low
}

/// The arctangent series divided by its argument, from the `k`-th term on, in
/// the square `z` of the argument: `1/(2k+1) - z (1/(2k+3) - z (...))`.
pub open spec fn arctangent_tail(z: Fixed, k: nat, last: nat) -> Fixed
    decreases last + 1 - k,
{
    if k > last {
        Fixed::zero()
    } else {
        Fixed::one().div_int((2 * k + 1) as i64).minus(z.times(arctangent_tail(z, k + 1, last)))
    }
}

/// The arctangent of a small argument by its power series.
pub open spec fn arctangent_series(y: Fixed) -> Fixed {
    y.times(arctangent_tail(y.squared(), 0, ARCTANGENT_TERMS as nat))
}

/// The arctangent of a number between zero and one.
pub open spec fn arctangent_unit(x: Fixed) -> Fixed {
    if x.gt(Fixed { bits: TAN_EIGHTH_PI_RAW }) {
        Fixed { bits: QUARTER_PI_RAW }.plus(
            arctangent_series(x.minus(Fixed::one()).over(x.plus(Fixed::one()))),
        )
    } else {
        arctangent_series(x)
    }
}

/// The arctangent of a number that is not negative.
pub open spec fn arctangent_positive(x: Fixed) -> Fixed {
    if x.gt(Fixed::one()) {
        Fixed::half_pi().minus(arctangent_unit(Fixed::one().over(x)))
    } else {
        arctangent_unit(x)
    }
}

/// The series of the inverse hyperbolic tangent divided by its argument, from
/// the `k`-th term on, in the square `z` of the argument:
/// `1/(2k+1) + z (1/(2k+3) + z (...))`.
pub open spec fn logarithm_tail(z: Fixed, k: nat, last: nat) -> Fixed
    decreases last + 1 - k,
{
    if k > last {
        Fixed::zero()
    } else {
        Fixed::one().div_int((2 * k + 1) as i64).plus(z.times(logarithm_tail(z, k + 1, last)))
    }
}

/// The natural logarithm of a number between one and two, as twice the
/// inverse hyperbolic tangent of `(m - 1) / (m + 1)`.
pub open spec fn logarithm_of_mantissa(m: Fixed) -> Fixed {
    let s = m.minus(Fixed::one()).over(m.plus(Fixed::one()));
    s.times(logarithm_tail(s.squared(), 0, LOGARITHM_TERMS as nat)).twice()
}

/// The natural logarithm of the positive raw number `m`, plus `offset`: `m` is
/// halved or doubled into the interval from one to two, and each halving adds
/// the logarithm of two to the offset, each doubling takes it away.
pub open spec fn logarithm_scaled(m: int, offset: Fixed) -> Fixed
    decreases
            (if m >= 2 * SCALE {
                m
            } else {
                2 * SCALE - m
            }),
{
    if m <= 0 {
        Fixed::undefined()
    } else if m >= 2 * SCALE {
        logarithm_scaled(m / 2, offset.plus(Fixed { bits: LN_2_RAW }))
    } else if m < SCALE {
        logarithm_scaled(2 * m, offset.minus(Fixed { bits: LN_2_RAW }))
    } else {
        offset.plus(logarithm_of_mantissa(Fixed::wrap(m)))
    }
}

/// The exponential series from the `k`-th nested factor on:
/// `1 + r/k (1 + r/(k+1) (...))`.
pub open spec fn exponential_tail(r: Fixed, k: nat, last: nat) -> Fixed
    decreases last + 1 - k,
{
    if k > last {
        Fixed::one()
    } else {
        Fixed::one().plus(r.times(exponential_tail(r, k + 1, last)).div_int(k as i64))
    }
}

/// `v` times two to the power `k`, by repeated doubling or halving.
pub open spec fn scale_by_power_of_two(v: Fixed, k: int) -> Fixed
    decreases
            (if k >= 0 {
                k
            } else {
                -k
            }),
{
    if k == 0 {
        v
    } else if k > 0 {
        scale_by_power_of_two(v.twice(), k - 1)
    } else {
        scale_by_power_of_two(v.half(), k + 1)
    }
}

/// A wide number rounded to the nearest fixed-point number.
pub open spec fn rounded(w: Wide) -> Fixed {
    if w.defined() {
        Fixed::wrap(round_div(w.bits as int, GUARD as int))
    } else {
        Fixed::undefined()
    }
}

/// Evaluates [`rounded`].
fn round_to_fixed(w: Wide) -> (r: Fixed)
    ensures
        r == rounded(w),
{
    if w.in_range() {
        from_wide(round_div_wide(w.bits, GUARD))
    } else {
        Fixed::undefined()
    }
}

/// The number `v` times the wide number `numerator` over the wide number
/// `denominator`, rounded once to the nearest fixed-point number; undefined
/// when the denominator is zero.
pub open spec fn quotient(v: Fixed, numerator: Wide, denominator: Wide) -> Fixed {
    if v.defined() && numerator.defined() && denominator.defined() && denominator.bits != 0 {
        if denominator.bits > 0 {
            Fixed::wrap(round_div(v.raw() * numerator.bits, denominator.bits as int))
        } else {
            Fixed::wrap(round_div(-(v.raw() * numerator.bits), -denominator.bits))
        }
    } else {
        Fixed::undefined()
    }
}

/// Evaluates [`quotient`].
fn scaled_quotient(v: Fixed, numerator: Wide, denominator: Wide) -> (r: Fixed)
    ensures
        r == quotient(v, numerator, denominator),
{
    if !v.is_defined() || !numerator.in_range() || !denominator.in_range() || denominator.bits == 0 {
        return Fixed::undefined();
    }
    proof {
        lemma_product_bound(v.bits as int, numerator.bits as int);
    }
    let product: i128 = v.bits as i128 * numerator.bits;
    if denominator.bits > 0 {
        from_wide(round_div_wide(product, denominator.bits))
    } else {
        from_wide(round_div_wide(-product, -denominator.bits))
    }
}

impl Fixed {
    /// The value that `sqrt` returns.
    pub open spec fn sqrt_spec(self) -> Fixed {
        if self.defined() && self.raw() >= 0 {
            Fixed::wrap(floor_sqrt(self.raw() * SCALE))
        } else {
            Fixed::undefined()
        }
    }

    /// Square root, rounded down; undefined for a negative number.
    #[verifier::when_used_as_spec(sqrt_spec)]
    pub fn sqrt(self) -> (r: Fixed)
        ensures
            r == self.sqrt_spec(),
            r.defined() ==> r.raw() >= 0 && r.raw() * r.raw() <= self.raw() * SCALE < (r.raw() + 1)
                * (r.raw() + 1),
    {
        if self.bits == i64::MIN || self.bits < 0 {
            return Fixed::undefined();
        }
        assert(self.bits * SCALE < 0x1_0000_0000_0000_0000_0000_0000_00) by (nonlinear_arith)
            requires
                0 <= self.bits <= 0x7fff_ffff_ffff_ffff,
                SCALE == 0x100_0000_0000,
        ;
        assert(self.bits * SCALE >= 0) by (nonlinear_arith)
            requires
                0 <= self.bits,
                SCALE == 0x100_0000_0000,
        ;
        let root: u128 = integer_sqrt(self.bits as u128 * SCALE as u128);
        Fixed { bits: root as i64 }
    }

    /// The value that `sin` returns.
    pub open spec fn sin_spec(self) -> Fixed {
        if self.defined() {
            rounded(sine_spec(self.raw() * GUARD))
        } else {
            Fixed::undefined()
        }
    }

    /// Sine of an angle in radians: the sine with guard bits, rounded.
    #[verifier::when_used_as_spec(sin_spec)]
    pub fn sin(self) -> (r: Fixed)
        ensures
            r == self.sin_spec(),
    {
        if self.bits == i64::MIN {
            return Fixed::undefined();
        }
        round_to_fixed(sine(self.bits as i128 * GUARD))
    }

    /// The value that `cos` returns.
    pub open spec fn cos_spec(self) -> Fixed {
        if self.defined() {
            rounded(sine_spec(self.raw() * GUARD + HALF_PI_WIDE))
        } else {
            Fixed::undefined()
        }
    }

    /// Cosine of an angle in radians: the sine a quarter turn further on,
    /// with guard bits, rounded.
    #[verifier::when_used_as_spec(cos_spec)]
    pub fn cos(self) -> (r: Fixed)
        ensures
            r == self.cos_spec(),
    {
        if self.bits == i64::MIN {
            return Fixed::undefined();
        }
        round_to_fixed(sine(self.bits as i128 * GUARD + HALF_PI_WIDE))
    }

    /// The value that `tan` returns.
    pub open spec fn tan_spec(self) -> Fixed {
        if self.defined() {
            quotient(
                Fixed::one(),
                sine_spec(self.raw() * GUARD),
                sine_spec(self.raw() * GUARD + HALF_PI_WIDE),
            )
        } else {
            Fixed::undefined()
        }
    }

    /// Tangent of an angle in radians: the quotient of the sine and the
    /// cosine with guard bits, rounded once; undefined where the cosine is
    /// zero.
    #[verifier::when_used_as_spec(tan_spec)]
    pub fn tan(self) -> (r: Fixed)
        ensures
            r == self.tan_spec(),
    {
        if self.bits == i64::MIN {
            return Fixed::undefined();
        }
        let angle: i128 = self.bits as i128 * GUARD;
        scaled_quotient(Fixed::one(), sine(angle), sine(angle + HALF_PI_WIDE))
    }

    /// The value that `over_tan` returns.
    pub open spec fn over_tan_spec(self, angle: Fixed) -> Fixed {
        if angle.defined() {
            quotient(
                self,
                sine_spec(angle.raw() * GUARD + HALF_PI_WIDE),
                sine_spec(angle.raw() * GUARD),
            )
        } else {
            Fixed::undefined()
        }
    }

    /// This number over the tangent of `angle`: the number times the cosine
    /// over the sine, both with guard bits, rounded once; undefined where
    /// the sine is zero.
    #[verifier::when_used_as_spec(over_tan_spec)]
    pub fn over_tan(self, angle: Fixed) -> (r: Fixed)
        ensures
            r == self.over_tan_spec(angle),
    {
        if angle.bits == i64::MIN {
            return Fixed::undefined();
        }
        let wide_angle: i128 = angle.bits as i128 * GUARD;
        scaled_quotient(self, sine(wide_angle + HALF_PI_WIDE), sine(wide_angle))
    }

    /// The value that `atan` returns.
    pub open spec fn atan_spec(self) -> Fixed {
        if !self.defined() {
            Fixed::undefined()
        } else if self.lt(Fixed::zero()) {
            arctangent_positive(self.neg()).neg()
        } else {
            arctangent_positive(self)
        }
    }

    /// Arctangent, in radians.
    #[verifier::when_used_as_spec(atan_spec)]
    pub fn atan(self) -> (r: Fixed)
        ensures
            r == self.atan_spec(),
    {
        if !self.is_defined() {
            Fixed::undefined()
        } else if self.lt(Fixed::zero()) {
            arctangent_of_positive(self.neg()).neg()
        } else {
            arctangent_of_positive(self)
        }
    }

    /// The value that `asin` returns.
    pub open spec fn asin_spec(self) -> Fixed {
        if self.abs().le(Fixed::one()) {
            self.over(Fixed::one().plus(Fixed::one().minus(self.squared()).sqrt())).atan().twice()
        } else {
            Fixed::undefined()
        }
    }

    /// Arcsine, in radians, as twice the arctangent of
    /// `x / (1 + sqrt(1 - x^2))`; undefined outside minus one to one.
    #[verifier::when_used_as_spec(asin_spec)]
    pub fn asin(self) -> (r: Fixed)
        ensures
            r == self.asin_spec(),
    {
        if self.abs().le(Fixed::one()) {
            self.over(Fixed::one().plus(Fixed::one().minus(self.squared()).sqrt())).atan().twice()
        } else {
            Fixed::undefined()
        }
    }

    /// The value that `ln` returns.
    pub open spec fn ln_spec(self) -> Fixed {
        if self.gt(Fixed::zero()) {
            logarithm_scaled(self.raw(), Fixed::zero())
        } else {
            Fixed::undefined()
        }
    }

    /// Natural logarithm; undefined unless the number is positive.
    #[verifier::when_used_as_spec(ln_spec)]
    pub fn ln(self) -> (r: Fixed)
        ensures
            r == self.ln_spec(),
    {
        if !self.gt(Fixed::zero()) {
            return Fixed::undefined();
        }
        let mut m: i64 = self.bits;
        let mut offset = Fixed::zero();
        while m >= 2 * SCALE
            invariant
                m > 0,
                logarithm_scaled(m as int, offset) == self.ln_spec(),
            decreases m,
        {
            m = m / 2;
            offset = offset.plus(Fixed { bits: LN_2_RAW });
        }
        while m < SCALE
            invariant
                0 < m < 2 * SCALE,
                logarithm_scaled(m as int, offset) == self.ln_spec(),
            decreases 2 * SCALE - m,
        {
            m = 2 * m;
            offset = offset.minus(Fixed { bits: LN_2_RAW });
        }
        let mantissa = Fixed { bits: m };
        let s = mantissa.minus(Fixed::one()).over(mantissa.plus(Fixed::one()));
        let z = s.squared();
        let mut tail = Fixed::zero();
        let mut k: i64 = LOGARITHM_TERMS as i64;
        while k >= 0
            invariant
                -1 <= k <= LOGARITHM_TERMS,
                tail == logarithm_tail(z, (k + 1) as nat, LOGARITHM_TERMS as nat),
            decreases k + 1,
        {
            tail = Fixed::one().div_int(2 * k + 1).plus(z.times(tail));
            k = k - 1;
        }
        offset.plus(s.times(tail).twice())
    }

    /// The value that `exp` returns.
    pub open spec fn exp_spec(self) -> Fixed {
        if self.defined() {
            let k = round_div(self.raw(), LN_2_RAW as int);
            let r = Fixed::wrap(self.raw() - k * LN_2_RAW);
            if k > EXPONENT_MAX {
                Fixed::undefined()
            } else if k < EXPONENT_MIN {
                Fixed::zero()
            } else {
                scale_by_power_of_two(exponential_tail(r, 1, EXPONENTIAL_TERMS as nat), k)
            }
        } else {
            Fixed::undefined()
        }
    }

    /// Exponential: the argument is split into a multiple of the logarithm of
    /// two and a remainder, the series gives the exponential of the
    /// remainder, and the multiple scales it by a power of two. Undefined
    /// when the result does not fit.
    #[verifier::when_used_as_spec(exp_spec)]
    pub fn exp(self) -> (r: Fixed)
        ensures
            r == self.exp_spec(),
    {
        if self.bits == i64::MIN {
            return Fixed::undefined();
        }
        let raw: i128 = self.bits as i128;
        let k: i128 = if raw >= 0 {
            (raw + (LN_2_RAW as i128) / 2) / (LN_2_RAW as i128)
        } else {
            -((-raw + (LN_2_RAW as i128) / 2) / (LN_2_RAW as i128))
        };
        if k > EXPONENT_MAX as i128 {
            return Fixed::undefined();
        }
        if k < EXPONENT_MIN as i128 {
            return Fixed::zero();
        }
        let remainder = Fixed { bits: (raw - k * (LN_2_RAW as i128)) as i64 };
        let mut tail = Fixed::one();
        let mut j: i64 = EXPONENTIAL_TERMS as i64;
        while j >= 1
            invariant
                0 <= j <= EXPONENTIAL_TERMS,
                tail == exponential_tail(remainder, (j + 1) as nat, EXPONENTIAL_TERMS as nat),
            decreases j,
        {
            tail = Fixed::one().plus(remainder.times(tail).div_int(j));
            j = j - 1;
        }
        let ghost series = tail;
        let mut value = tail;
        let mut left: i64 = k as i64;
        while left != 0
            invariant
                EXPONENT_MIN <= left <= EXPONENT_MAX,
                scale_by_power_of_two(value, left as int) == scale_by_power_of_two(series, k as int),
            decreases
                    (if left >= 0 {
                        left as int
                    } else {
                        -left
                    }),
        {
            if left > 0 {
                value = value.twice();
                left = left - 1;
            } else {
                value = value.half();
                left = left + 1;
            }
        }
        value
    }

    /// The value that `powf` returns.
    pub open spec fn powf_spec(self, exponent: Fixed) -> Fixed {
        if self.gt(Fixed::zero()) {
            exponent.times(self.ln_spec()).exp_spec()
        } else {
            Fixed::undefined()
        }
    }

    /// A positive number raised to a power, as the exponential of the power
    /// times the logarithm; undefined unless the base is positive.
    #[verifier::when_used_as_spec(powf_spec)]
    pub fn powf(self, exponent: Fixed) -> (r: Fixed)
        ensures
            r == self.powf_spec(exponent),
    {
        if self.gt(Fixed::zero()) {
            exponent.times(self.ln()).exp()
        } else {
            Fixed::undefined()
        }
    }
}

/// Evaluates [`arctangent_series`].
fn arctangent_by_series(y: Fixed) -> (r: Fixed)
    ensures
        r == arctangent_series(y),
{
    let z = y.squared();
    let mut tail = Fixed::zero();
    let mut k: i64 = ARCTANGENT_TERMS as i64;
    while k >= 0
        invariant
            -1 <= k <= ARCTANGENT_TERMS,
            tail == arctangent_tail(z, (k + 1) as nat, ARCTANGENT_TERMS as nat),
        decreases k + 1,
    {
        tail = Fixed::one().div_int(2 * k + 1).minus(z.times(tail));
        k = k - 1;
    }
    y.times(tail)
}

/// Evaluates [`arctangent_positive`].
fn arctangent_of_positive(x: Fixed) -> (r: Fixed)
    ensures
        r == arctangent_positive(x),
{
    let unit = if x.gt(Fixed::one()) { Fixed::one().over(x) } else { x };
    let angle = if unit.gt(Fixed { bits: TAN_EIGHTH_PI_RAW }) {
        Fixed { bits: QUARTER_PI_RAW }.plus(
            arctangent_by_series(unit.minus(Fixed::one()).over(unit.plus(Fixed::one()))),
        )
    } else {
        arctangent_by_series(unit)
    };
    if x.gt(Fixed::one()) {
        Fixed::half_pi().minus(angle)
    } else {
        angle
    }
}

} // verus!
