//! The sine with guard bits.
//!
//! The trigonometric functions are evaluated on numbers with sixty
//! fractional bits, twenty more than a [`Fixed`](crate::fixed::Fixed) has, and
//! rounded once at the end: the roundings of the series then stay far below
//! the last bit of the result. A [`Wide`] is such a number, or undefined when
//! its magnitude exceeds eight.

use vstd::prelude::*;
use crate::fixed::{lemma_product_bound, round_div, round_div_wide};

verus! {

/// Raw representation of the number one in a [`Wide`]: two to the power
/// sixty.
pub const WIDE_SCALE: i128 = 0x1000_0000_0000_0000;

/// Largest raw magnitude of a defined [`Wide`].
pub const WIDE_MAX: i128 = 0x8000_0000_0000_0000;

/// Raw units of a [`Wide`] in one raw unit of a `Fixed`: two to the power
/// twenty.
pub const GUARD: i128 = 0x10_0000;

/// Raw representation of pi with sixty fractional bits.
pub const PI_WIDE: i128 = 3622009729038561421;

/// Raw representation of pi / 2 with sixty fractional bits.
pub const HALF_PI_WIDE: i128 = 1811004864519280711;

/// Raw representation of 2 pi with sixty fractional bits.
pub const TWO_PI_WIDE: i128 = 7244019458077122842;

/// Index of the last term kept in the sine series.
pub const SINE_TERMS: u32 = 12;

/// A number with sixty fractional bits; undefined when its raw magnitude
/// exceeds [`WIDE_MAX`].
#[derive(Clone, Copy, Debug)]
pub struct Wide {
    pub bits: i128,
}

/// Divisor of the `k`-th nested factor of the sine series.
pub open spec fn sine_divisor(k: nat) -> i64 {
    ((2 * k) * (2 * k + 1)) as i64
}

impl Wide {
    /// Whether this is a number rather than undefined.
    pub open spec fn defined(self) -> bool {
        -WIDE_MAX <= self.bits <= WIDE_MAX
    }

    /// The number with raw integer `v`, or an undefined value when `v` is out
    /// of range.
    pub open spec fn wrap(v: int) -> Wide {
        if -WIDE_MAX <= v <= WIDE_MAX {
            Wide { bits: v as i128 }
        } else {
            Wide { bits: i128::MIN }
        }
    }

    /// The number one.
    pub open spec fn one() -> Wide {
        Wide { bits: WIDE_SCALE }
    }

    /// The value that `minus` returns.
    pub open spec fn minus_spec(self, rhs: Wide) -> Wide {
        if self.defined() && rhs.defined() {
            Wide::wrap(self.bits - rhs.bits)
        } else {
            Wide { bits: i128::MIN }
        }
    }

    /// Difference; exact when it fits.
    #[verifier::when_used_as_spec(minus_spec)]
    pub fn minus(self, rhs: Wide) -> (r: Wide)
        ensures
            r == self.minus_spec(rhs),
    {
        if self.in_range() && rhs.in_range() {
            narrow(self.bits - rhs.bits)
        } else {
            Wide { bits: i128::MIN }
        }
    }

    /// The value that `times` returns.
    pub open spec fn times_spec(self, rhs: Wide) -> Wide {
        if self.defined() && rhs.defined() {
            Wide::wrap(round_div(self.bits * rhs.bits, WIDE_SCALE as int))
        } else {
            Wide { bits: i128::MIN }
        }
    }

    /// Product, rounded to the nearest representable number.
    #[verifier::when_used_as_spec(times_spec)]
    pub fn times(self, rhs: Wide) -> (r: Wide)
        ensures
            r == self.times_spec(rhs),
    {
        if self.in_range() && rhs.in_range() {
            proof {
                lemma_product_bound(self.bits as int, rhs.bits as int);
            }
            narrow(round_div_wide(self.bits * rhs.bits, WIDE_SCALE))
        } else {
            Wide { bits: i128::MIN }
        }
    }

    /// The value that `plus` returns.
    pub open spec fn plus_spec(self, rhs: Wide) -> Wide {
        if self.defined() && rhs.defined() {
            Wide::wrap(self.bits + rhs.bits)
        } else {
            Wide { bits: i128::MIN }
        }
    }

    /// Sum; exact when it fits.
    #[verifier::when_used_as_spec(plus_spec)]
    pub fn plus(self, rhs: Wide) -> (r: Wide)
        ensures
            r == self.plus_spec(rhs),
    {
        if self.in_range() && rhs.in_range() {
            narrow(self.bits + rhs.bits)
        } else {
            Wide { bits: i128::MIN }
        }
    }

    /// The value that `times_at` returns.
    pub open spec fn times_at_spec(self, rhs: Wide, scale: i128) -> Wide {
        if self.defined() && rhs.defined() && 0 < scale <= WIDE_MAX {
            Wide::wrap(round_div(self.bits * rhs.bits, scale as int))
        } else {
            Wide { bits: i128::MIN }
        }
    }

    /// Product of two numbers whose raw unit is one over `scale`, rounded to
    /// the nearest such number.
    #[verifier::when_used_as_spec(times_at_spec)]
    pub fn times_at(self, rhs: Wide, scale: i128) -> (r: Wide)
        ensures
            r == self.times_at_spec(rhs, scale),
    {
        if self.in_range() && rhs.in_range() && 0 < scale && scale <= WIDE_MAX {
            proof {
                lemma_product_bound(self.bits as int, rhs.bits as int);
            }
            narrow(round_div_wide(self.bits * rhs.bits, scale))
        } else {
            Wide { bits: i128::MIN }
        }
    }

    /// The value that `times_over` returns.
    pub open spec fn times_over_spec(self, numerator: Wide, denominator: Wide) -> Wide {
        if self.defined() && numerator.defined() && denominator.defined() && denominator.bits != 0 {
            if denominator.bits > 0 {
                Wide::wrap(round_div(self.bits * numerator.bits, denominator.bits as int))
            } else {
                Wide::wrap(round_div(-(self.bits * numerator.bits), -denominator.bits))
            }
        } else {
            Wide { bits: i128::MIN }
        }
    }

    /// This number times `numerator` over `denominator`, rounded once;
    /// undefined when the denominator is zero.
    #[verifier::when_used_as_spec(times_over_spec)]
    pub fn times_over(self, numerator: Wide, denominator: Wide) -> (r: Wide)
        ensures
            r == self.times_over_spec(numerator, denominator),
    {
        if !self.in_range() || !numerator.in_range() || !denominator.in_range() || denominator.bits
            == 0 {
            return Wide { bits: i128::MIN };
        }
        proof {
            lemma_product_bound(self.bits as int, numerator.bits as int);
        }
        let product: i128 = self.bits * numerator.bits;
        if denominator.bits > 0 {
            narrow(round_div_wide(product, denominator.bits))
        } else {
            narrow(round_div_wide(-product, -denominator.bits))
        }
    }

    /// The value that `div_int` returns.
    pub open spec fn div_int_spec(self, n: i64) -> Wide {
        if self.defined() && n > 0 {
            Wide::wrap(round_div(self.bits as int, n as int))
        } else {
            Wide { bits: i128::MIN }
        }
    }

    /// Quotient by a positive integer, rounded; undefined for any other
    /// divisor.
    #[verifier::when_used_as_spec(div_int_spec)]
    pub fn div_int(self, n: i64) -> (r: Wide)
        ensures
            r == self.div_int_spec(n),
    {
        if self.in_range() && n > 0 {
            narrow(round_div_wide(self.bits, n as i128))
        } else {
            Wide { bits: i128::MIN }
        }
    }

    /// Whether this is a number rather than undefined.
    #[verifier::when_used_as_spec(defined)]
    pub fn in_range(self) -> (b: bool)
        ensures
            b == self.defined(),
    {
        -WIDE_MAX <= self.bits && self.bits <= WIDE_MAX
    }
}

/// The wide number with raw value `v`, undefined when it does not fit.
pub(crate) fn narrow(v: i128) -> (r: Wide)
    ensures
        r == Wide::wrap(v as int),
{
    if -WIDE_MAX <= v && v <= WIDE_MAX {
        Wide { bits: v }
    } else {
        Wide { bits: i128::MIN }
    }
}

/// The sine series divided by its argument, from the `k`-th nested factor on,
/// in the square `z` of the argument:
/// `1 - z/(2k(2k+1)) (1 - z/((2k+2)(2k+3)) (...))`.
pub open spec fn sine_tail(z: Wide, k: nat, last: nat) -> Wide
    decreases last + 1 - k,
{
    if k > last {
        Wide::one()
    } else {
        Wide::one().minus(z.times(sine_tail(z, k + 1, last)).div_int(sine_divisor(k)))
    }
}

/// The wide angle `raw` less the nearest whole number of turns.
pub open spec fn reduce_angle(raw: int) -> int {
    raw - round_div(raw, TWO_PI_WIDE as int) * TWO_PI_WIDE
}

/// A wide angle within half a turn of zero, reflected into the quarter turn
/// around zero; the sine is the same.
pub open spec fn fold_angle(raw: int) -> int {
    if raw > HALF_PI_WIDE {
        PI_WIDE - raw
    } else if raw < -HALF_PI_WIDE {
        -PI_WIDE - raw
    } else {
        raw
    }
}

/// The sine of the wide angle `angle`, in radians: the angle is reduced and
/// folded into the quarter turn around zero, and the series is summed there.
pub open spec fn sine_spec(angle: int) -> Wide {
    let y = Wide::wrap(fold_angle(reduce_angle(angle)));
    y.times(sine_tail(y.times(y), 1, SINE_TERMS as nat))
}

/// The sine of a wide angle of raw magnitude up to `2^84`.
pub(crate) fn sine(angle: i128) -> (r: Wide)
    requires
        -0x10_0000_0000_0000_0000_0000 <= angle <= 0x10_0000_0000_0000_0000_0000,
    ensures
        r == sine_spec(angle as int),
{
    let turns: i128 = round_div_wide(angle, TWO_PI_WIDE);
    let reduced: i128 = angle - turns * TWO_PI_WIDE;
    let folded: i128 = if reduced > HALF_PI_WIDE {
        PI_WIDE - reduced
    } else if reduced < -HALF_PI_WIDE {
        -PI_WIDE - reduced
    } else {
        reduced
    };
    let y = narrow(folded);
    let z = y.times(y);
    let mut tail = Wide { bits: WIDE_SCALE };
    let mut k: i64 = SINE_TERMS as i64;
    while k >= 1
        invariant
            0 <= k <= SINE_TERMS,
            tail == sine_tail(z, (k + 1) as nat, SINE_TERMS as nat),
        decreases k,
    {
        assert(0 < (2 * k) * (2 * k + 1) <= 600) by (nonlinear_arith)
            requires
                1 <= k <= 12,
        ;
        tail = Wide { bits: WIDE_SCALE }.minus(z.times(tail).div_int((2 * k) * (2 * k + 1)));
        k = k - 1;
    }
    y.times(tail)
}

} // verus!
