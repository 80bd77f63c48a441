//! Bounds on rounded products and quotients, and on the natural logarithm
//! of a [`Fixed`] number.
//!
//! The logarithm is a range reduction by powers of two and a truncated
//! series. The lemmas here follow that reduction: the logarithm of every
//! positive number is a number, and it lies between the logarithm of two
//! times the power of two below it and the same for the power of two above
//! it, with seven eighths to spare for the series.

use vstd::prelude::*;
use vstd::arithmetic::power2::{lemma2_to64, lemma_pow2_unfold, pow2};
use crate::elementary::{
    logarithm_of_mantissa, logarithm_scaled, logarithm_tail, LOGARITHM_TERMS,
};
use crate::fixed::{lemma_round_div_error, round_div, Fixed, LN_2_RAW, SCALE};

verus! {

/// Upper bound of the series part of a logarithm: seven eighths.
pub const MANTISSA_LOGARITHM_MAX_RAW: i64 = 0xe0_0000_0000;

/// The product of two raw numbers that are not negative, scaled back and
/// rounded, lies between the products of their lower and of their upper
/// bounds scaled back, give or take one.
pub proof fn lemma_scaled_product_between(
    x: int,
    y: int,
    low_x: int,
    high_x: int,
    low_y: int,
    high_y: int,
)
    requires
        0 <= low_x <= x <= high_x,
        0 <= low_y <= y <= high_y,
    ensures
        (low_x * low_y) / 0x100_0000_0000 <= round_div(x * y, SCALE as int) <= (high_x * high_y)
            / 0x100_0000_0000 + 1,
{
    let p = x * y;
    let low = low_x * low_y;
    let high = high_x * high_y;
    assert(low <= p <= high) by (nonlinear_arith)
        requires
            0 <= low_x <= x <= high_x,
            0 <= low_y <= y <= high_y,
            p == x * y,
            low == low_x * low_y,
            high == high_x * high_y,
    ;
    assert(0 <= low) by (nonlinear_arith)
        requires
            0 <= low_x,
            0 <= low_y,
            low == low_x * low_y,
    ;
}

/// The rounded scaled product of two bounded raw numbers is bounded by the
/// product of the bounds scaled back, and one.
pub proof fn lemma_scaled_product_within(x: int, y: int, bound_x: int, bound_y: int)
    requires
        -bound_x <= x <= bound_x,
        -bound_y <= y <= bound_y,
    ensures
        -((bound_x * bound_y) / 0x100_0000_0000) - 1 <= round_div(x * y, SCALE as int) <= (bound_x
            * bound_y) / 0x100_0000_0000 + 1,
{
    let p = x * y;
    let q = bound_x * bound_y;
    assert(-q <= p <= q) by (nonlinear_arith)
        requires
            -bound_x <= x <= bound_x,
            -bound_y <= y <= bound_y,
            p == x * y,
            q == bound_x * bound_y,
    ;
}

/// A rounded quotient lies between two integers that its exact value lies
/// between.
pub proof fn lemma_quotient_between(n: int, d: int, low: int, high: int)
    requires
        d > 0,
        low * d <= n <= high * d,
    ensures
        low <= round_div(n, d) <= high,
{
    let r = round_div(n, d);
    lemma_round_div_error(n, d);
    assert(low <= r <= high) by (nonlinear_arith)
        requires
            d > 0,
            low * d <= n <= high * d,
            -d <= 2 * (n - d * r) <= d,
    ;
}

/// The rounded scaled product of a raw number that is not negative and one
/// that is at most `high_y` is at most the scaled product of the upper
/// bounds, and one.
pub proof fn lemma_scaled_product_at_most(x: int, y: int, high_x: int, high_y: int)
    requires
        0 <= x <= high_x,
        y <= high_y,
        0 <= high_y,
    ensures
        round_div(x * y, SCALE as int) <= (high_x * high_y) / 0x100_0000_0000 + 1,
{
    let p = x * y;
    let q = high_x * high_y;
    assert(p <= q && 0 <= q) by (nonlinear_arith)
        requires
            0 <= x <= high_x,
            y <= high_y,
            0 <= high_y,
            p == x * y,
            q == high_x * high_y,
    ;
}

/// The rounded scaled product of a raw number of at least `low_x` and a
/// negative one of at most `-low_e` is at most the scaled product of the
/// bounds below zero.
pub proof fn lemma_scaled_product_below(x: int, y: int, low_x: int, low_e: int)
    requires
        0 <= low_x <= x,
        y <= -low_e,
        0 <= low_e,
    ensures
        round_div(x * y, SCALE as int) <= -((low_x * low_e) / 0x100_0000_0000),
{
    let p = x * y;
    let q = low_x * low_e;
    assert(p <= -q && 0 <= q) by (nonlinear_arith)
        requires
            0 <= low_x <= x,
            y <= -low_e,
            0 <= low_e,
            p == x * y,
            q == low_x * low_e,
    ;
}

/// The series of the logarithm stays between zero and five quarters for a
/// square of at most an eighth.
pub proof fn lemma_logarithm_tail_bound(z: Fixed, k: nat)
    requires
        z.defined(),
        0 <= z.raw() <= 0x20_0000_0000,
    ensures
        logarithm_tail(z, k, LOGARITHM_TERMS as nat).defined(),
        0 <= logarithm_tail(z, k, LOGARITHM_TERMS as nat).raw() <= 0x140_0000_0000,
    decreases LOGARITHM_TERMS + 1 - k,
{
    if k > LOGARITHM_TERMS {
    } else {
        lemma_logarithm_tail_bound(z, k + 1);
        let rest = logarithm_tail(z, k + 1, LOGARITHM_TERMS as nat);
        lemma_scaled_product_between(z.raw(), rest.raw(), 0, 0x20_0000_0000, 0, 0x140_0000_0000);
        let n = 2 * k + 1;
        let term = round_div(SCALE as int, n as int);
        lemma_round_div_error(SCALE as int, n as int);
        assert(0 <= term <= 0x100_0000_0000) by (nonlinear_arith)
            requires
                n >= 1,
                -n <= 2 * (0x100_0000_0000 - n * term) <= n,
        ;
    }
}

/// The series part of a logarithm, for a number from one up to two, lies
/// between zero and seven eighths.
pub proof fn lemma_logarithm_of_mantissa_bound(m: Fixed)
    requires
        m.defined(),
        0x100_0000_0000 <= m.raw() < 0x200_0000_0000,
    ensures
        logarithm_of_mantissa(m).defined(),
        0 <= logarithm_of_mantissa(m).raw() <= MANTISSA_LOGARITHM_MAX_RAW,
{
    let n = m.raw() - 0x100_0000_0000;
    let d = m.raw() + 0x100_0000_0000;
    let s = m.minus(Fixed::one()).over(m.plus(Fixed::one()));
    let r = round_div(n * 0x100_0000_0000, d);
    lemma_round_div_error(n * 0x100_0000_0000, d);
    assert(0 <= r <= 366503875926) by (nonlinear_arith)
        requires
            0x200_0000_0000 <= d < 0x300_0000_0000,
            n == d - 0x200_0000_0000,
            -d <= 2 * (n * 0x100_0000_0000 - d * r) <= d,
    ;
    assert(s.defined() && s.raw() == r);
    lemma_scaled_product_between(s.raw(), s.raw(), 0, 366503875926, 0, 366503875926);
    let z = s.squared();
    assert(z.defined() && 0 <= z.raw() <= 0x20_0000_0000);
    lemma_logarithm_tail_bound(z, 0);
    let tail = logarithm_tail(z, 0, LOGARITHM_TERMS as nat);
    lemma_scaled_product_between(s.raw(), tail.raw(), 0, 366503875926, 0, 0x140_0000_0000);
}

/// The logarithm of a raw number of at least one, reduced by halving: with
/// `2^low <= m / SCALE < 2^(high + 1)` the result lies between the offset
/// and `low` logarithms of two, and the offset, `high` logarithms of two and
/// seven eighths.
pub proof fn lemma_logarithm_by_halving(m: int, offset: Fixed, low: nat, high: nat)
    requires
        offset.defined(),
        low <= high <= 64,
        -0x2000_0000_0000_0000 - (64 - high) * LN_2_RAW <= offset.raw() <= 0x2000_0000_0000_0000
            + (64 - high) * LN_2_RAW,
        0x100_0000_0000 * pow2(low) <= m < 0x200_0000_0000 * pow2(high),
        m <= 0x7fff_ffff_ffff_ffff,
    ensures
        logarithm_scaled(m, offset).defined(),
        offset.raw() + low * LN_2_RAW <= logarithm_scaled(m, offset).raw() <= offset.raw() + high
            * LN_2_RAW + MANTISSA_LOGARITHM_MAX_RAW,
    decreases high,
{
    lemma2_to64();
    assert(pow2(low) >= 1) by {
        vstd::arithmetic::power2::lemma_pow2_pos(low);
    }
    assert(0 <= (64 - high) * LN_2_RAW <= 64 * LN_2_RAW) by (nonlinear_arith)
        requires
            0 <= high <= 64,
    ;
    assert(0 <= high * LN_2_RAW <= 64 * LN_2_RAW) by (nonlinear_arith)
        requires
            0 <= high <= 64,
    ;
    if m < 0x200_0000_0000 {
        assert(low == 0) by {
            if low > 0 {
                lemma_pow2_unfold(low);
                vstd::arithmetic::power2::lemma_pow2_pos((low - 1) as nat);
            }
        }
        lemma_logarithm_of_mantissa_bound(Fixed::wrap(m));
        assert(high * LN_2_RAW >= 0) by (nonlinear_arith)
            requires
                high >= 0,
        ;
    } else {
        assert(high >= 1) by {
            if high == 0 {
            }
        }
        lemma_pow2_unfold(high);
        let next = offset.plus(Fixed { bits: LN_2_RAW });
        let below: nat = if low >= 1 {
            (low - 1) as nat
        } else {
            0
        };
        if low >= 1 {
            lemma_pow2_unfold(low);
        }
        assert(low * LN_2_RAW <= below * LN_2_RAW + LN_2_RAW) by (nonlinear_arith)
            requires
                low <= below + 1,
        ;
        assert(high * LN_2_RAW == (high - 1) * LN_2_RAW + LN_2_RAW) by (nonlinear_arith);
        assert((64 - (high - 1)) * LN_2_RAW == (64 - high) * LN_2_RAW + LN_2_RAW)
            by (nonlinear_arith);
        assert(0 <= (high - 1) * LN_2_RAW <= 64 * LN_2_RAW) by (nonlinear_arith)
            requires
                1 <= high <= 64,
        ;
        assert(0 <= below * LN_2_RAW) by (nonlinear_arith)
            requires
                below >= 0,
        ;
        lemma_logarithm_by_halving(m / 2, next, below, (high - 1) as nat);
    }
}

/// The logarithm of a positive raw number below two, reduced by doubling:
/// with `m / SCALE >= 2^-depth` the result lies between the offset less
/// `depth` logarithms of two, and the offset and seven eighths.
pub proof fn lemma_logarithm_by_doubling(m: int, offset: Fixed, depth: nat)
    requires
        offset.defined(),
        depth <= 64,
        -0x2000_0000_0000_0000 - (64 - depth) * LN_2_RAW <= offset.raw() <= 0x2000_0000_0000_0000
            + (64 - depth) * LN_2_RAW,
        0 < m < 0x200_0000_0000,
        0x100_0000_0000 <= m * pow2(depth),
    ensures
        logarithm_scaled(m, offset).defined(),
        offset.raw() - depth * LN_2_RAW <= logarithm_scaled(m, offset).raw() <= offset.raw()
            + MANTISSA_LOGARITHM_MAX_RAW,
    decreases depth,
{
    lemma2_to64();
    assert(0 <= depth * LN_2_RAW <= 64 * LN_2_RAW) by (nonlinear_arith)
        requires
            0 <= depth <= 64,
    ;
    assert(0 <= (64 - depth) * LN_2_RAW <= 64 * LN_2_RAW) by (nonlinear_arith)
        requires
            0 <= depth <= 64,
    ;
    if m >= 0x100_0000_0000 {
        lemma_logarithm_of_mantissa_bound(Fixed::wrap(m));
    } else {
        assert(depth >= 1) by {
            if depth == 0 {
                assert(m * pow2(0) == m) by (nonlinear_arith)
                    requires
                        pow2(0) == 1,
                ;
            }
        }
        lemma_pow2_unfold(depth);
        let next = offset.minus(Fixed { bits: LN_2_RAW });
        let rest = pow2((depth - 1) as nat);
        assert((2 * m) * rest == m * (2 * rest)) by (nonlinear_arith);
        assert(depth * LN_2_RAW == (depth - 1) * LN_2_RAW + LN_2_RAW) by (nonlinear_arith);
        assert((64 - (depth - 1)) * LN_2_RAW == (64 - depth) * LN_2_RAW + LN_2_RAW)
            by (nonlinear_arith);
        lemma_logarithm_by_doubling(2 * m, next, (depth - 1) as nat);
    }
}

/// The logarithm of a number of at least one: with
/// `2^low <= x < 2^(high + 1)` it lies between `low` logarithms of two, and
/// `high` logarithms of two and seven eighths.
pub proof fn lemma_logarithm_above_one(x: Fixed, low: nat, high: nat)
    requires
        x.defined(),
        low <= high <= 64,
        0x100_0000_0000 * pow2(low) <= x.raw() < 0x200_0000_0000 * pow2(high),
    ensures
        x.ln().defined(),
        low * LN_2_RAW <= x.ln().raw() <= high * LN_2_RAW + MANTISSA_LOGARITHM_MAX_RAW,
{
    vstd::arithmetic::power2::lemma_pow2_pos(low);
    lemma_logarithm_by_halving(x.raw(), Fixed::zero(), low, high);
}

/// The logarithm of a positive number below two: with `x >= 2^-depth` it
/// lies between `depth` logarithms of two below zero, and seven eighths.
pub proof fn lemma_logarithm_below_two(x: Fixed, depth: nat)
    requires
        x.defined(),
        depth <= 64,
        0 < x.raw() < 0x200_0000_0000,
        0x100_0000_0000 <= x.raw() * pow2(depth),
    ensures
        x.ln().defined(),
        -(depth * LN_2_RAW) <= x.ln().raw() <= MANTISSA_LOGARITHM_MAX_RAW,
{
    lemma_logarithm_by_doubling(x.raw(), Fixed::zero(), depth);
}

/// The logarithm of every positive number is a number, between forty
/// logarithms of two below zero and twenty-three above.
pub proof fn lemma_logarithm_is_total(x: Fixed)
    requires
        x.gt(Fixed::zero()),
    ensures
        x.ln().defined(),
        -40 * LN_2_RAW <= x.ln().raw() <= 22 * LN_2_RAW + MANTISSA_LOGARITHM_MAX_RAW,
{
    lemma2_to64();
    if x.raw() >= 0x100_0000_0000 {
        assert(pow2(0) == 1);
        assert(0x200_0000_0000 * pow2(22) == 0x8000_0000_0000_0000) by {
            assert(pow2(22) == 0x40_0000);
        }
        lemma_logarithm_above_one(x, 0, 22);
    } else {
        assert(x.raw() * pow2(40) >= 0x100_0000_0000) by {
            vstd::arithmetic::power2::lemma_pow2_adds(32, 8);
            assert(pow2(40) == 0x100_0000_0000);
        }
        lemma_logarithm_below_two(x, 40);
    }
}

} // verus!
