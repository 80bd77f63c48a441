//! Signed fixed-point numbers with forty fractional bits.
//!
//! A [`Fixed`] is either a number `raw / 2^40` or the *undefined* value. Every
//! operation is total: a result that does not fit, a division by zero or an
//! undefined operand gives the undefined value, which then propagates. The
//! model of a value is an optional integer, its view: the raw integer of a
//! number, nothing for the undefined value. The meaning of each operation is
//! a spec function on the raw integers, and the executable operation is
//! proved to compute exactly that function.

use vstd::prelude::*;

verus! {

/// Raw representation of the number one: two to the power forty.
pub const SCALE: i64 = 0x100_0000_0000;

/// Largest raw magnitude of a defined number.
pub const RAW_MAX: i64 = 0x7fff_ffff_ffff_ffff;

/// Raw representation of pi.
pub const PI_RAW: i64 = 3454217652358;

/// Raw representation of pi / 2.
pub const HALF_PI_RAW: i64 = 1727108826179;

/// Raw representation of pi / 4.
pub const QUARTER_PI_RAW: i64 = 863554413089;

/// Raw representation of 2 pi.
pub const TWO_PI_RAW: i64 = 6908435304715;

/// Raw representation of the natural logarithm of two.
pub const LN_2_RAW: i64 = 762123384786;

/// A fixed-point number with forty fractional bits, or the undefined value.
///
/// The undefined value is stored as the one bit pattern that has no negation;
/// the defined numbers are therefore symmetric around zero.
#[derive(Clone, Copy, Debug, PartialEq, Eq, Structural)]
pub struct Fixed {
    pub bits: i64,
}

impl View for Fixed {
    type V = Option<int>;

    /// The raw integer of a number; nothing for the undefined value.
    open spec fn view(&self) -> Option<int> {
        if self.bits == i64::MIN {
            None
        } else {
            Some(self.bits as int)
        }
    }
}

/// Quotient of `n` by a positive `d`, rounded to the nearest integer, halves
/// away from zero.
pub open spec fn round_div(n: int, d: int) -> int {
    if n >= 0 {
        (n + d / 2) / d
    } else {
        -((-n + d / 2) / d)
    }
}

/// The rounded quotient is off by at most half the divisor: the numerator
/// differs from the divisor times the rounded quotient by no more than half
/// the divisor.
pub proof fn lemma_round_div_error(n: int, d: int)
    requires
        d > 0,
    ensures
        -d <= 2 * (n - d * round_div(n, d)) <= d,
{
    let h = d / 2;
    assert(2 * h <= d <= 2 * h + 1);
    if n >= 0 {
        let x = n + h;
        vstd::arithmetic::div_mod::lemma_fundamental_div_mod(x, d);
        vstd::arithmetic::div_mod::lemma_mod_pos_bound(x, d);
        assert(n - d * (x / d) == (x % d) - h);
    } else {
        let x = -n + h;
        vstd::arithmetic::div_mod::lemma_fundamental_div_mod(x, d);
        vstd::arithmetic::div_mod::lemma_mod_pos_bound(x, d);
        assert(d * (-(x / d)) == -(d * (x / d))) by (nonlinear_arith);
        assert(n - d * (-(x / d)) == h - (x % d));
    }
}

/// Absolute value of an integer.
pub open spec fn magnitude(n: int) -> int {
    if n >= 0 {
        n
    } else {
        -n
    }
}

/// The product of two 64-bit magnitudes fits comfortably in 128 bits.
pub(crate) proof fn lemma_product_bound(a: int, b: int)
    requires
        -0x8000_0000_0000_0000 <= a <= 0x8000_0000_0000_0000,
        -0x8000_0000_0000_0000 <= b <= 0x8000_0000_0000_0000,
    ensures
        -0x4000_0000_0000_0000_0000_0000_0000_0000 <= a * b
            <= 0x4000_0000_0000_0000_0000_0000_0000_0000,
{
    assert(-0x4000_0000_0000_0000_0000_0000_0000_0000 <= a * b
        <= 0x4000_0000_0000_0000_0000_0000_0000_0000) by (nonlinear_arith)
        requires
            -0x8000_0000_0000_0000 <= a <= 0x8000_0000_0000_0000,
            -0x8000_0000_0000_0000 <= b <= 0x8000_0000_0000_0000,
    ;
}

/// Rounded quotient on 128-bit integers.
pub(crate) fn round_div_wide(n: i128, d: i128) -> (q: i128)
    requires
        0 < d <= 0x1_0000_0000_0000_0000,
        -0x4000_0000_0000_0000_0000_0000_0000_0000 <= n
            <= 0x4000_0000_0000_0000_0000_0000_0000_0000,
    ensures
        q == round_div(n as int, d as int),
{
    let h: i128 = d / 2;
    if n >= 0 {
        (n + h) / d
    } else {
        -((-n + h) / d)
    }
}

/// Narrows a 128-bit raw value, giving the undefined value when it does not fit.
pub(crate) fn from_wide(v: i128) -> (r: Fixed)
    ensures
        r == Fixed::wrap(v as int),
{
    if -(RAW_MAX as i128) <= v && v <= RAW_MAX as i128 {
        Fixed { bits: v as i64 }
    } else {
        Fixed { bits: i64::MIN }
    }
}

impl Fixed {
    /// Whether this is a number rather than the undefined value.
    pub open spec fn defined(self) -> bool {
        self.bits != i64::MIN
    }

    /// The raw integer: the number times [`SCALE`].
    pub open spec fn raw(self) -> int {
        self.bits as int
    }

    /// The number with raw integer `v`, or the undefined value when `v` is out
    /// of range.
    pub open spec fn wrap(v: int) -> Fixed {
        if -RAW_MAX <= v <= RAW_MAX {
            Fixed { bits: v as i64 }
        } else {
            Fixed { bits: i64::MIN }
        }
    }

    /// The value that `undefined` returns.
    pub open spec fn undefined_spec() -> Fixed {
        Fixed { bits: i64::MIN }
    }

    /// The undefined value.
    #[verifier::when_used_as_spec(undefined_spec)]
    pub fn undefined() -> (r: Fixed)
        ensures
            r == Fixed::undefined_spec(),
    {
        Fixed { bits: i64::MIN }
    }

    /// The value that `from_raw` returns.
    pub open spec fn from_raw_spec(bits: i64) -> Fixed {
        Fixed { bits }
    }

    /// The value stored as `bits`.
    #[verifier::when_used_as_spec(from_raw_spec)]
    pub fn from_raw(bits: i64) -> (r: Fixed)
        ensures
            r == Fixed::from_raw_spec(bits),
    {
        Fixed { bits }
    }

    /// The stored bits.
    pub fn to_raw(self) -> (bits: i64)
        ensures
            bits == self.bits,
    {
        self.bits
    }

    /// The value that `zero` returns.
    pub open spec fn zero_spec() -> Fixed {
        Fixed { bits: 0 }
    }

    /// The number zero.
    #[verifier::when_used_as_spec(zero_spec)]
    pub fn zero() -> (r: Fixed)
        ensures
            r == Fixed::zero_spec(),
    {
        Fixed { bits: 0 }
    }

    /// The value that `one` returns.
    pub open spec fn one_spec() -> Fixed {
        Fixed { bits: SCALE }
    }

    /// The number one.
    #[verifier::when_used_as_spec(one_spec)]
    pub fn one() -> (r: Fixed)
        ensures
            r == Fixed::one_spec(),
    {
        Fixed { bits: SCALE }
    }

    /// The value that `pi` returns.
    pub open spec fn pi_spec() -> Fixed {
        Fixed { bits: PI_RAW }
    }

    /// The number pi, rounded.
    #[verifier::when_used_as_spec(pi_spec)]
    pub fn pi() -> (r: Fixed)
        ensures
            r == Fixed::pi_spec(),
    {
        Fixed { bits: PI_RAW }
    }

    /// The value that `half_pi` returns.
    pub open spec fn half_pi_spec() -> Fixed {
        Fixed { bits: HALF_PI_RAW }
    }

    /// Half of pi, rounded.
    #[verifier::when_used_as_spec(half_pi_spec)]
    pub fn half_pi() -> (r: Fixed)
        ensures
            r == Fixed::half_pi_spec(),
    {
        Fixed { bits: HALF_PI_RAW }
    }

    /// The value that `from_int` returns.
    pub open spec fn from_int_spec(n: i64) -> Fixed {
        Fixed::wrap(n * SCALE)
    }

    /// The integer `n` as a fixed-point number.
    #[verifier::when_used_as_spec(from_int_spec)]
    pub fn from_int(n: i64) -> (r: Fixed)
        ensures
            r == Fixed::from_int_spec(n),
    {
        proof {
            lemma_product_bound(n as int, SCALE as int);
        }
        from_wide(n as i128 * SCALE as i128)
    }

    /// The value that `from_ratio` returns.
    pub open spec fn from_ratio_spec(numerator: i64, denominator: i64) -> Fixed {
        Fixed::from_int_spec(numerator).over_spec(Fixed::from_int_spec(denominator))
    }

    /// The quotient of two integers, rounded.
    #[verifier::when_used_as_spec(from_ratio_spec)]
    pub fn from_ratio(numerator: i64, denominator: i64) -> (r: Fixed)
        ensures
            r == Fixed::from_ratio_spec(numerator, denominator),
    {
        Fixed::from_int(numerator).over(Fixed::from_int(denominator))
    }

    /// Whether this is a number rather than the undefined value.
    #[verifier::when_used_as_spec(defined)]
    pub fn is_defined(self) -> (b: bool)
        ensures
            b == self.defined(),
    {
        self.bits != i64::MIN
    }

    /// The value that `plus` returns.
    pub open spec fn plus_spec(self, rhs: Fixed) -> Fixed {
        if self.defined() && rhs.defined() {
            Fixed::wrap(self.raw() + rhs.raw())
        } else {
            Fixed::undefined_spec()
        }
    }

    /// Sum; exact when it fits.
    #[verifier::when_used_as_spec(plus_spec)]
    pub fn plus(self, rhs: Fixed) -> (r: Fixed)
        ensures
            r == self.plus_spec(rhs),
    {
        if self.bits == i64::MIN || rhs.bits == i64::MIN {
            return Fixed::undefined();
        }
        from_wide(self.bits as i128 + rhs.bits as i128)
    }

    /// The value that `minus` returns.
    pub open spec fn minus_spec(self, rhs: Fixed) -> Fixed {
        if self.defined() && rhs.defined() {
            Fixed::wrap(self.raw() - rhs.raw())
        } else {
            Fixed::undefined_spec()
        }
    }

    /// Difference; exact when it fits.
    #[verifier::when_used_as_spec(minus_spec)]
    pub fn minus(self, rhs: Fixed) -> (r: Fixed)
        ensures
            r == self.minus_spec(rhs),
    {
        if self.bits == i64::MIN || rhs.bits == i64::MIN {
            return Fixed::undefined();
        }
        from_wide(self.bits as i128 - rhs.bits as i128)
    }

    /// The value that `neg` returns.
    pub open spec fn neg_spec(self) -> Fixed {
        if self.defined() {
            Fixed::wrap(-self.raw())
        } else {
            Fixed::undefined_spec()
        }
    }

    /// Negation; always exact.
    #[verifier::when_used_as_spec(neg_spec)]
    pub fn neg(self) -> (r: Fixed)
        ensures
            r == self.neg_spec(),
    {
        if self.bits == i64::MIN {
            return Fixed::undefined();
        }
        Fixed { bits: -self.bits }
    }

    /// The value that `abs` returns.
    pub open spec fn abs_spec(self) -> Fixed {
        if self.defined() {
            Fixed::wrap(magnitude(self.raw()))
        } else {
            Fixed::undefined_spec()
        }
    }

    /// Absolute value; always exact.
    #[verifier::when_used_as_spec(abs_spec)]
    pub fn abs(self) -> (r: Fixed)
        ensures
            r == self.abs_spec(),
    {
        if self.bits == i64::MIN {
            return Fixed::undefined();
        }
        if self.bits < 0 {
            Fixed { bits: -self.bits }
        } else {
            self
        }
    }

    /// The value that `times` returns.
    pub open spec fn times_spec(self, rhs: Fixed) -> Fixed {
        if self.defined() && rhs.defined() {
            Fixed::wrap(round_div(self.raw() * rhs.raw(), SCALE as int))
        } else {
            Fixed::undefined_spec()
        }
    }

    /// Product, rounded to the nearest representable number.
    #[verifier::when_used_as_spec(times_spec)]
    pub fn times(self, rhs: Fixed) -> (r: Fixed)
        ensures
            r == self.times_spec(rhs),
    {
        if self.bits == i64::MIN || rhs.bits == i64::MIN {
            return Fixed::undefined();
        }
        proof {
            lemma_product_bound(self.bits as int, rhs.bits as int);
        }
        let product: i128 = self.bits as i128 * rhs.bits as i128;
        from_wide(round_div_wide(product, SCALE as i128))
    }

    /// The value that `squared` returns.
    pub open spec fn squared_spec(self) -> Fixed {
        self.times_spec(self)
    }

    /// The square, rounded.
    #[verifier::when_used_as_spec(squared_spec)]
    pub fn squared(self) -> (r: Fixed)
        ensures
            r == self.squared_spec(),
    {
        self.times(self)
    }

    /// The value that `over` returns.
    pub open spec fn over_spec(self, rhs: Fixed) -> Fixed {
        if self.defined() && rhs.defined() && rhs.raw() != 0 {
            if rhs.raw() > 0 {
                Fixed::wrap(round_div(self.raw() * SCALE, rhs.raw()))
            } else {
                Fixed::wrap(round_div(-(self.raw() * SCALE), -rhs.raw()))
            }
        } else {
            Fixed::undefined_spec()
        }
    }

    /// Quotient, rounded to the nearest representable number; undefined when
    /// the divisor is zero.
    #[verifier::when_used_as_spec(over_spec)]
    pub fn over(self, rhs: Fixed) -> (r: Fixed)
        ensures
            r == self.over_spec(rhs),
    {
        if self.bits == i64::MIN || rhs.bits == i64::MIN || rhs.bits == 0 {
            return Fixed::undefined();
        }
        proof {
            lemma_product_bound(self.bits as int, SCALE as int);
        }
        let scaled: i128 = self.bits as i128 * SCALE as i128;
        if rhs.bits > 0 {
            from_wide(round_div_wide(scaled, rhs.bits as i128))
        } else {
            from_wide(round_div_wide(-scaled, -(rhs.bits as i128)))
        }
    }

    /// The value that `times_int` returns.
    pub open spec fn times_int_spec(self, n: i64) -> Fixed {
        if self.defined() {
            Fixed::wrap(self.raw() * n)
        } else {
            Fixed::undefined_spec()
        }
    }

    /// Product with an integer; exact when it fits.
    #[verifier::when_used_as_spec(times_int_spec)]
    pub fn times_int(self, n: i64) -> (r: Fixed)
        ensures
            r == self.times_int_spec(n),
    {
        if self.bits == i64::MIN {
            return Fixed::undefined();
        }
        proof {
            lemma_product_bound(self.bits as int, n as int);
        }
        from_wide(self.bits as i128 * n as i128)
    }

    /// The value that `div_int` returns.
    pub open spec fn div_int_spec(self, n: i64) -> Fixed {
        if self.defined() && n != 0 {
            if n > 0 {
                Fixed::wrap(round_div(self.raw(), n as int))
            } else {
                Fixed::wrap(round_div(-self.raw(), -n))
            }
        } else {
            Fixed::undefined_spec()
        }
    }

    /// Quotient by an integer, rounded; undefined when the divisor is zero.
    #[verifier::when_used_as_spec(div_int_spec)]
    pub fn div_int(self, n: i64) -> (r: Fixed)
        ensures
            r == self.div_int_spec(n),
    {
        if self.bits == i64::MIN || n == 0 {
            return Fixed::undefined();
        }
        if n > 0 {
            from_wide(round_div_wide(self.bits as i128, n as i128))
        } else {
            from_wide(round_div_wide(-(self.bits as i128), -(n as i128)))
        }
    }

    /// The value that `half` returns.
    pub open spec fn half_spec(self) -> Fixed {
        self.div_int_spec(2)
    }

    /// Half of the number, rounded.
    #[verifier::when_used_as_spec(half_spec)]
    pub fn half(self) -> (r: Fixed)
        ensures
            r == self.half_spec(),
    {
        self.div_int(2)
    }

    /// The value that `twice` returns.
    pub open spec fn twice_spec(self) -> Fixed {
        self.plus_spec(self)
    }

    /// Twice the number.
    #[verifier::when_used_as_spec(twice_spec)]
    pub fn twice(self) -> (r: Fixed)
        ensures
            r == self.twice_spec(),
    {
        self.plus(self)
    }

    /// The value that `midpoint` returns.
    pub open spec fn midpoint_spec(self, rhs: Fixed) -> Fixed {
        if self.defined() && rhs.defined() {
            Fixed::wrap((self.raw() + rhs.raw()) / 2)
        } else {
            Fixed::undefined_spec()
        }
    }

    /// The mean of two numbers, rounded down. It never overflows and lies
    /// between the two.
    #[verifier::when_used_as_spec(midpoint_spec)]
    pub fn midpoint(self, rhs: Fixed) -> (r: Fixed)
        ensures
            r == self.midpoint_spec(rhs),
    {
        if self.bits == i64::MIN || rhs.bits == i64::MIN {
            return Fixed::undefined();
        }
        let sum: i128 = self.bits as i128 + rhs.bits as i128;
        if sum >= 0 {
            from_wide(sum / 2)
        } else {
            from_wide(-((1 - sum) / 2))
        }
    }

    /// The value that `lt` returns.
    pub open spec fn lt_spec(self, rhs: Fixed) -> bool {
        self.defined() && rhs.defined() && self.raw() < rhs.raw()
    }

    /// Strictly less; false when either side is undefined.
    #[verifier::when_used_as_spec(lt_spec)]
    pub fn lt(self, rhs: Fixed) -> (b: bool)
        ensures
            b == self.lt_spec(rhs),
    {
        self.bits != i64::MIN && rhs.bits != i64::MIN && self.bits < rhs.bits
    }

    /// The value that `le` returns.
    pub open spec fn le_spec(self, rhs: Fixed) -> bool {
        self.defined() && rhs.defined() && self.raw() <= rhs.raw()
    }

    /// Less or equal; false when either side is undefined.
    #[verifier::when_used_as_spec(le_spec)]
    pub fn le(self, rhs: Fixed) -> (b: bool)
        ensures
            b == self.le_spec(rhs),
    {
        self.bits != i64::MIN && rhs.bits != i64::MIN && self.bits <= rhs.bits
    }

    /// The value that `gt` returns.
    pub open spec fn gt_spec(self, rhs: Fixed) -> bool {
        rhs.lt_spec(self)
    }

    /// Strictly greater; false when either side is undefined.
    #[verifier::when_used_as_spec(gt_spec)]
    pub fn gt(self, rhs: Fixed) -> (b: bool)
        ensures
            b == self.gt_spec(rhs),
    {
        rhs.lt(self)
    }

    /// The value that `ge` returns.
    pub open spec fn ge_spec(self, rhs: Fixed) -> bool {
        rhs.le_spec(self)
    }

    /// Greater or equal; false when either side is undefined.
    #[verifier::when_used_as_spec(ge_spec)]
    pub fn ge(self, rhs: Fixed) -> (b: bool)
        ensures
            b == self.ge_spec(rhs),
    {
        rhs.le(self)
    }
}

} // verus!
