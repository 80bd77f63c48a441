//! Laws of the solvers on two model problems.
//!
//! Newton-Raphson is followed on `x^2 - c`, whose root is the square root of
//! `c`: it is shown to return a root, and the root to be the square root
//! within the tolerance. The Runge-Kutta step is followed on `y' = y`, whose
//! solution is the exponential: one step is shown to agree with the
//! exponential through the fourth order in the step size, and a march of
//! any number of steps to stay between two envelopes that apply that
//! agreement step after step. Both proofs account
//! for every rounding of the fixed-point arithmetic.

use vstd::prelude::*;
use vstd::arithmetic::power2::{
    lemma2_to64, lemma2_to64_rest, lemma_pow2_strictly_increases, lemma_pow2_unfold, pow2,
};
use crate::elementary::{
    floor_sqrt, is_floor_sqrt, lemma_floor_sqrt_exists, lemma_floor_sqrt_unique,
};
use crate::fixed::{lemma_round_div_error, round_div, Fixed, SCALE};
use crate::numerics::{
    iterations_or_default, lemma_newton_root_is_converged_step, newton_raphson_spec, newton_run,
    newton_step, rk4_march_spec, rk4_step_spec, singular, step_tolerance_or_default,
};

verus! {

/// The function `x^2 - c`, whose positive root is the square root of `c`.
pub open spec fn square_residual(c: Fixed) -> spec_fn(Fixed) -> Fixed {
    |x: Fixed| x.squared().minus(c)
}

/// The derivative `2 x` of [`square_residual`].
pub open spec fn square_slope() -> spec_fn(Fixed) -> Fixed {
    |x: Fixed| x.twice()
}

/// One Newton step `b = a - q` for `x^2 - c`, on raw integers: with `c` at
/// least one, a step `q` no longer than `t <= 2^19` raw units and a positive
/// result, the result is within one raw unit of the integer square root of
/// `c` times the scale.
#[verifier::rlimit(50)]
proof fn lemma_square_step_near_root(a: int, c: int, t: int, q: int)
    requires
        c >= SCALE,
        0 <= t <= 0x8_0000,
        a != 0,
        a > 0 ==> q == round_div((round_div(a * a, SCALE as int) - c) * SCALE, 2 * a),
        a < 0 ==> q == round_div(-((round_div(a * a, SCALE as int) - c) * SCALE), -(2 * a)),
        -t <= q <= t,
        a - q > 0,
    ensures
        is_floor_sqrt(c * SCALE, a - q - 1) || is_floor_sqrt(c * SCALE, a - q) || is_floor_sqrt(
            c * SCALE,
            a - q + 1,
        ),
{
    let s = SCALE as int;
    let b = a - q;
    let sqr = round_div(a * a, s);
    let g = sqr - c;
    let m = if a > 0 {
        a
    } else {
        -a
    };
    lemma_round_div_error(a * a, s);
    if a > 0 {
        lemma_round_div_error(g * s, 2 * a);
        assert(2 * a * q == (2 * a) * q) by (nonlinear_arith);
    } else {
        lemma_round_div_error(-(g * s), -(2 * a));
        assert((-(2 * a)) * q == -(2 * a * q)) by (nonlinear_arith);
    }
    assert(-m <= g * s - 2 * a * q <= m);
    let e = b * b - c * s - q * q;
    assert(e == (a * a - s * sqr) + (g * s - 2 * a * q)) by (nonlinear_arith)
        requires
            b == a - q,
            g == sqr - c,
            e == b * b - c * s - q * q,
    ;
    assert(-s - 2 * m <= 2 * e <= s + 2 * m);
    assert(q - q * q <= 0) by (nonlinear_arith);
    assert(q * q <= 0x40_0000_0000) by (nonlinear_arith)
        requires
            -0x8_0000 <= q <= 0x8_0000,
    ;
    assert(c * s >= s * s) by (nonlinear_arith)
        requires
            c >= s,
            s > 0,
    ;
    assert(s * s == 0x1_0000_0000_0000_0000_0000) by (nonlinear_arith)
        requires
            s == 0x100_0000_0000,
    ;
    if a < 0 {
        // the result would be shorter than the step, and its square far below c
        assert(0 < b <= 0x8_0000);
        assert(b * b <= 0x40_0000_0000) by (nonlinear_arith)
            requires
                0 < b <= 0x8_0000,
        ;
        assert(false);
    }
    assert(m == b + q);
    if b < s {
        assert(b * b + b <= (s - 1) * (s - 1) + (s - 1)) by (nonlinear_arith)
            requires
                0 < b <= s - 1,
        ;
        assert((s - 1) * (s - 1) + (s - 1) == s * s - s) by (nonlinear_arith);
        assert(false);
    }
    assert((b - 1) * (b - 1) == b * b - 2 * b + 1) by (nonlinear_arith);
    assert((b + 1) * (b + 1) == b * b + 2 * b + 1) by (nonlinear_arith);
    assert((b + 2) * (b + 2) == b * b + 4 * b + 4) by (nonlinear_arith);
    assert((b - 1) * (b - 1) <= c * s);
    assert(c * s < (b + 2) * (b + 2));
    assert(b - 1 + 1 == b && b + 1 + 1 == b + 2);
    if c * s < b * b {
        assert(is_floor_sqrt(c * s, b - 1));
    } else if c * s < (b + 1) * (b + 1) {
        assert(is_floor_sqrt(c * s, b));
    } else {
        assert(is_floor_sqrt(c * s, b + 1));
    }
}

/// What Newton-Raphson returns for [`square_residual`] is the square root.
/// For `c` at least one and a tolerance of at most `2^19` raw units, about
/// half a millionth, a positive root that Newton-Raphson returns differs from
/// the square root of `c` by at most one raw unit, from whatever guess and
/// under whatever cap it was found.
#[verifier::rlimit(50)]
pub proof fn lemma_newton_square_root_is_accurate(
    c: Fixed,
    x_init: Fixed,
    tolerance: Option<Fixed>,
    max_iters: Option<u16>,
)
    requires
        c.ge(Fixed::one()),
        step_tolerance_or_default(tolerance).raw() <= 0x8_0000,
    ensures
        match newton_raphson_spec(square_residual(c), square_slope(), x_init, tolerance, max_iters) {
            Ok(root) => root.gt(Fixed::zero()) ==> c.sqrt().defined() && -1 <= root.raw()
                - c.sqrt().raw() <= 1,
            Err(_) => true,
        },
{
    let g = square_residual(c);
    let dg = square_slope();
    let tol = step_tolerance_or_default(tolerance);
    let cap = iterations_or_default(max_iters);
    match newton_raphson_spec(g, dg, x_init, tolerance, max_iters) {
        Ok(root) => {
            if root.gt(Fixed::zero()) {
                lemma_newton_root_is_converged_step(g, dg, x_init, tol, cap);
                let x = newton_run(g, dg, x_init, tol, cap).last;
                assert(root == x.minus(x.squared().minus(c).over(x.twice())));
                assert(root.minus(x).abs().le(tol));
                let a = x.raw();
                let quotient = x.squared().minus(c).over(x.twice());
                assert(x.defined());
                assert(x.squared().defined());
                assert(x.squared().minus(c).defined());
                assert(x.twice().defined());
                assert(quotient.defined());
                let q = quotient.raw();
                assert(x.squared().raw() == round_div(a * a, SCALE as int));
                assert(x.twice().raw() == 2 * a);
                assert(root.raw() == a - q);
                assert(-tol.raw() <= q <= tol.raw());
                lemma_square_step_near_root(a, c.raw(), tol.raw(), q);
                let n = c.raw() * SCALE;
                let r = if is_floor_sqrt(n, a - q - 1) {
                    a - q - 1
                } else if is_floor_sqrt(n, a - q) {
                    a - q
                } else {
                    a - q + 1
                };
                assert(is_floor_sqrt(n, r));
                lemma_floor_sqrt_unique(n, r, floor_sqrt(n));
                assert(n < 0x1_0000_0000_0000_0000_0000_0000_00) by (nonlinear_arith)
                    requires
                        n == c.raw() * SCALE,
                        0 <= c.raw() <= 0x7fff_ffff_ffff_ffff,
                        SCALE == 0x100_0000_0000,
                ;
                assert(r < 0x10_0000_0000_0000) by (nonlinear_arith)
                    requires
                        0 <= r,
                        r * r <= n,
                        n < 0x1_0000_0000_0000_0000_0000_0000_00,
                ;
            }
        },
        Err(_) => {},
    }
}

/// The integer square root of a number between `2^-10` and 2048, times the
/// scale, lies between `2^35` and `2^46`.
proof fn lemma_square_root_bounds(c: int, r: int)
    requires
        0x4000_0000 <= c <= 0x8_0000_0000_0000,
        is_floor_sqrt(c * SCALE, r),
    ensures
        0x8_0000_0000 <= r <= 0x4000_0000_0000,
        0x40_0000_0000_0000_0000 <= c * SCALE <= 0x800_0000_0000_0000_0000_0000,
{
    let s = SCALE as int;
    let n0 = c * s;
    assert(0x40_0000_0000_0000_0000 <= n0 <= 0x800_0000_0000_0000_0000_0000) by (nonlinear_arith)
        requires
            n0 == c * s,
            0x4000_0000 <= c <= 0x8_0000_0000_0000,
            s == 0x100_0000_0000,
    ;
    if r < 0x8_0000_0000 {
        assert((r + 1) * (r + 1) <= 0x40_0000_0000_0000_0000) by (nonlinear_arith)
            requires
                0 <= r,
                r + 1 <= 0x8_0000_0000,
        ;
        assert(false);
    }
    if r > 0x4000_0000_0000 {
        assert(r * r > 0x800_0000_0000_0000_0000_0000) by (nonlinear_arith)
            requires
                r > 0x4000_0000_0000,
        ;
        assert(false);
    }
}

/// Bounds on one Newton step `a - q` for `x^2 - c`, on raw integers, with `r`
/// the integer square root of `c` times the scale. The step stays in range.
/// It lands no more than 256 raw units below the root, and no more than 16
/// from an iterate of at least `2^-6`. From an iterate near or above the root
/// it at most halves the distance to the root, up to 18 raw units, and from
/// an iterate 20 raw units or more above the root it stays no further above
/// the root than it moved.
#[verifier::rlimit(50)]
proof fn lemma_square_step_bounds(a: int, c: int, r: int, q: int)
    requires
        0x4000_0000 <= c <= 0x8_0000_0000_0000,
        is_floor_sqrt(c * SCALE, r),
        0x4000_0000 <= a <= 0x8_4000_0000_0400,
        q == round_div((round_div(a * a, SCALE as int) - c) * SCALE, 2 * a),
    ensures
        0 <= round_div(a * a, SCALE as int) <= 0x4410_0000_0042_0001,
        0 < a - q <= 0x2000_0000_0000_0000,
        a - q >= r - 256,
        a >= 0x4_0000_0000 ==> a - q >= r - 16,
        a >= r - 256 && a >= 0x4_0000_0000 ==> 2 * (a - q) <= a + r + 1100,
        a >= r - 16 ==> 2 * (a - q) <= a + r + 36,
        a >= r + 20 ==> 2 * (a - q) <= a + r,
        a <= 0x8_0000_0000_0000 && c * SCALE <= 0x8_0000_0000_0000 * a ==> a - q
            <= 0x8_0000_0000_0102,
{
    let s = SCALE as int;
    let n0 = c * s;
    let b = a - q;
    let sqr = round_div(a * a, s);
    let g = sqr - c;
    let v = a * a - s * sqr;
    let w = g * s - (2 * a) * q;
    lemma_round_div_error(a * a, s);
    lemma_round_div_error(g * s, 2 * a);
    assert(-s <= 2 * v <= s);
    assert(-a <= w <= a);
    lemma_square_root_bounds(c, r);
    // the square of the iterate stays in range
    assert(a * a <= 0x44100000004200000000100000) by (nonlinear_arith)
        requires
            0 <= a <= 0x8_4000_0000_0400,
    ;
    assert(a * a >= 0x1000_0000_0000_0000) by (nonlinear_arith)
        requires
            a >= 0x4000_0000,
    ;
    assert(0 <= sqr <= 0x4410_0000_0042_0001) by (nonlinear_arith)
        requires
            -s <= 2 * (a * a - s * sqr) <= s,
            0x1000_0000_0000_0000 <= a * a <= 0x44100000004200000000100000,
            s == 0x100_0000_0000,
    ;
    // twice the iterate times the next one is the square plus c within the roundings
    assert(2 * a * b == a * a + n0 + v + w) by (nonlinear_arith)
        requires
            b == a - q,
            n0 == c * s,
            g == sqr - c,
            v == a * a - s * sqr,
            w == g * s - (2 * a) * q,
    ;
    assert((a - r) * (a - r) == a * a - 2 * a * r + r * r) by (nonlinear_arith);
    assert((a - r) * (a - r) >= 0) by (nonlinear_arith);
    assert((r + 1) * (r + 1) == r * r + 2 * r + 1) by (nonlinear_arith);
    assert(2 * a * r == 2 * (a * r)) by (nonlinear_arith);
    assert(a * a <= 0x8_4000_0000_0400 * a) by (nonlinear_arith)
        requires
            0 < a <= 0x8_4000_0000_0400,
    ;
    if b <= 0 {
        assert(2 * a * b <= 0) by (nonlinear_arith)
            requires
                b <= 0,
                a > 0,
        ;
        assert(false);
    }
    if b > 0x2000_0000_0000_0000 {
        assert(2 * a * b >= 0x4000_0000_0000_0000 * a) by (nonlinear_arith)
            requires
                b >= 0x2000_0000_0000_0000,
                a > 0,
        ;
        assert(0x2000_0000_0000_0000 * a >= 0x800_0000_0000_0000_0000_0000) by (nonlinear_arith)
            requires
                a >= 0x4000_0000,
        ;
        assert(false);
    }
    if b <= r - 257 {
        assert(2 * a * b <= 2 * a * (r - 257)) by (nonlinear_arith)
            requires
                b <= r - 257,
                a > 0,
        ;
        assert(2 * a * (r - 257) == 2 * a * r - 514 * a) by (nonlinear_arith);
        assert(false);
    }
    if a >= 0x4_0000_0000 && b <= r - 17 {
        assert(2 * a * b <= 2 * a * (r - 17)) by (nonlinear_arith)
            requires
                b <= r - 17,
                a > 0,
        ;
        assert(2 * a * (r - 17) == 2 * a * r - 34 * a) by (nonlinear_arith);
        assert(false);
    }
    if a >= r - 256 && a >= 0x4_0000_0000 && 2 * b >= a + r + 1101 {
        assert(2 * a * (2 * b) >= 2 * a * (a + r + 1101)) by (nonlinear_arith)
            requires
                2 * b >= a + r + 1101,
                a > 0,
        ;
        assert(2 * a * (2 * b) == 2 * (2 * a * b)) by (nonlinear_arith);
        assert(2 * a * (a + r + 1101) == 2 * (a * a) + 2 * a * r + 2202 * a) by (nonlinear_arith);
        assert(a * r >= (r - 256) * r) by (nonlinear_arith)
            requires
                a >= r - 256,
                r >= 0,
        ;
        assert((r - 256) * r == r * r - 256 * r) by (nonlinear_arith);
        assert(false);
    }
    if a >= r - 16 && 2 * b >= a + r + 37 {
        assert(2 * a * (2 * b) >= 2 * a * (a + r + 37)) by (nonlinear_arith)
            requires
                2 * b >= a + r + 37,
                a > 0,
        ;
        assert(2 * a * (2 * b) == 2 * (2 * a * b)) by (nonlinear_arith);
        assert(2 * a * (a + r + 37) == 2 * (a * a) + 2 * a * r + 74 * a) by (nonlinear_arith);
        assert(a * r >= (r - 16) * r) by (nonlinear_arith)
            requires
                a >= r - 16,
                r >= 0,
        ;
        assert((r - 16) * r == r * r - 16 * r) by (nonlinear_arith);
        assert(false);
    }
    if a >= r + 20 && 2 * b >= a + r + 1 {
        assert(2 * a * (2 * b) >= 2 * a * (a + r + 1)) by (nonlinear_arith)
            requires
                2 * b >= a + r + 1,
                a > 0,
        ;
        assert(2 * a * (2 * b) == 2 * (2 * a * b)) by (nonlinear_arith);
        assert(2 * a * (a + r + 1) == 2 * (a * a) + 2 * a * r + 2 * a) by (nonlinear_arith);
        assert(a * r >= (r + 20) * r) by (nonlinear_arith)
            requires
                a >= r + 20,
                r >= 0,
        ;
        assert((r + 20) * r == r * r + 20 * r) by (nonlinear_arith);
        assert(false);
    }
    if a <= 0x8_0000_0000_0000 && n0 <= 0x8_0000_0000_0000 * a && b >= 0x8_0000_0000_0103 {
        assert(2 * a * b >= 2 * a * 0x8_0000_0000_0103) by (nonlinear_arith)
            requires
                b >= 0x8_0000_0000_0103,
                a > 0,
        ;
        assert(a * a <= 0x8_0000_0000_0000 * a) by (nonlinear_arith)
            requires
                0 < a <= 0x8_0000_0000_0000,
        ;
        assert(2 * a * 0x8_0000_0000_0103 == 0x8_0000_0000_0000 * a + 0x8_0000_0000_0000 * a + 518
            * a) by (nonlinear_arith);
        assert(false);
    }
}

/// What one Newton step gives on the numbers: from an iterate `x` in range,
/// the derivative is not singular, the next iterate is a number, and the
/// test of convergence is that the step `q` is no longer than the tolerance.
#[verifier::rlimit(50)]
proof fn lemma_square_step_defined(c: Fixed, x: Fixed, tolerance: Fixed, r: int)
    requires
        c.defined(),
        0x4000_0000 <= c.raw() <= 0x8_0000_0000_0000,
        is_floor_sqrt(c.raw() * SCALE, r),
        tolerance.defined(),
        x.defined(),
        0x4000_0000 <= x.raw() <= 0x8_4000_0000_0400,
    ensures
        ({
            let a = x.raw();
            let q = round_div((round_div(a * a, SCALE as int) - c.raw()) * SCALE, 2 * a);
            let next = newton_step(square_residual(c), square_slope(), x);
            &&& !singular(square_slope()(x))
            &&& next.defined()
            &&& next.raw() == a - q
            &&& next.minus(x).abs().le(tolerance) <==> -tolerance.raw() <= q <= tolerance.raw()
        }),
{
    let a = x.raw();
    let q = round_div((round_div(a * a, SCALE as int) - c.raw()) * SCALE, 2 * a);
    lemma_square_step_bounds(a, c.raw(), r, q);
    let next = newton_step(square_residual(c), square_slope(), x);
    assert(x.squared().raw() == round_div(a * a, SCALE as int) && x.squared().defined());
    assert(x.squared().minus(c).defined());
    assert(x.twice().defined() && x.twice().raw() == 2 * a);
    assert(x.squared().minus(c).over(x.twice()).raw() == q);
    assert(next.defined() && next.raw() == a - q);
    assert(!singular(x.twice()));
}

/// What Newton-Raphson on [`square_residual`] returns from an iterate `x`:
/// a root no more than 256 raw units below the integer square root `r` of
/// `c` times the scale and within the tolerance of it.
pub open spec fn finds_square_root(
    c: Fixed,
    x: Fixed,
    tolerance: Fixed,
    iterations: nat,
    r: int,
) -> bool {
    let run = newton_run(square_residual(c), square_slope(), x, tolerance, iterations);
    &&& run.outcome is Ok
    &&& (run.outcome->Ok_0).defined()
    &&& (run.outcome->Ok_0).raw() >= r - 256
    &&& -tolerance.raw() <= (run.outcome->Ok_0).raw() - r <= tolerance.raw()
}

/// Newton-Raphson on [`square_residual`] converges from near or above the
/// root: from an iterate no more than 16 raw units below the root and no more
/// than `2^n + 36` above it, with a tolerance of at least 64 raw units and
/// more than `n` iterations left.
#[verifier::rlimit(50)]
proof fn lemma_newton_square_root_converges(
    c: Fixed,
    x: Fixed,
    tolerance: Fixed,
    iterations: nat,
    n: nat,
    r: int,
)
    requires
        c.defined(),
        0x4000_0000 <= c.raw() <= 0x8_0000_0000_0000,
        is_floor_sqrt(c.raw() * SCALE, r),
        tolerance.defined(),
        tolerance.raw() >= 64,
        n <= 51,
        iterations > n,
        x.defined(),
        r - 16 <= x.raw() <= r + pow2(n) + 36,
    ensures
        finds_square_root(c, x, tolerance, iterations, r),
    decreases n,
{
    let a = x.raw();
    let q = round_div((round_div(a * a, SCALE as int) - c.raw()) * SCALE, 2 * a);
    lemma2_to64();
    lemma2_to64_rest();
    if n < 51 {
        lemma_pow2_strictly_increases(n, 51);
    }
    lemma_square_root_bounds(c.raw(), r);
    lemma_square_step_bounds(a, c.raw(), r, q);
    lemma_square_step_defined(c, x, tolerance, r);
    let next = newton_step(square_residual(c), square_slope(), x);
    if next.minus(x).abs().le(tolerance) {
    } else if n == 0 {
        assert(pow2(0) == 1);
        assert(false);
    } else {
        lemma_pow2_unfold(n);
        lemma_newton_square_root_converges(
            c,
            next,
            tolerance,
            (iterations - 1) as nat,
            (n - 1) as nat,
            r,
        );
    }
}

/// Newton-Raphson on [`square_residual`] converges from any iterate no more
/// than 256 raw units below the root that is at least `2^-6` and in range.
#[verifier::rlimit(50)]
proof fn lemma_newton_square_root_converges_from_below(
    c: Fixed,
    x: Fixed,
    tolerance: Fixed,
    iterations: nat,
    r: int,
)
    requires
        c.defined(),
        0x4000_0000 <= c.raw() <= 0x8_0000_0000_0000,
        is_floor_sqrt(c.raw() * SCALE, r),
        tolerance.defined(),
        tolerance.raw() >= 64,
        iterations >= 60,
        x.defined(),
        r - 256 <= x.raw() <= 0x8_0000_0000_0102,
    ensures
        finds_square_root(c, x, tolerance, iterations, r),
{
    let a = x.raw();
    let q = round_div((round_div(a * a, SCALE as int) - c.raw()) * SCALE, 2 * a);
    lemma2_to64_rest();
    lemma_square_root_bounds(c.raw(), r);
    lemma_square_step_bounds(a, c.raw(), r, q);
    lemma_square_step_defined(c, x, tolerance, r);
    let next = newton_step(square_residual(c), square_slope(), x);
    if next.minus(x).abs().le(tolerance) {
    } else {
        lemma_newton_square_root_converges(c, next, tolerance, (iterations - 1) as nat, 51, r);
    }
}

/// The law of Newton-Raphson on a square. Take `c` between `2^-10` and 2048
/// and a first guess between `2^-10` and 2048 with `c` over the guess no more
/// than 2048, so that the first iterate stays in range; a tolerance of at
/// least 64 raw units, about six parts in a hundred thousand million; and a
/// cap of at least 64 iterations. Then Newton-Raphson on `x^2 - c` returns a
/// positive root, and the root differs from the square root of `c` by no
/// more than the tolerance.
#[verifier::rlimit(50)]
pub proof fn lemma_newton_finds_square_root(
    c: Fixed,
    x_init: Fixed,
    tolerance: Option<Fixed>,
    max_iters: Option<u16>,
)
    requires
        c.ge(Fixed::from_raw(0x4000_0000)),
        c.le(Fixed::from_int(2048)),
        x_init.ge(Fixed::from_raw(0x4000_0000)),
        x_init.le(Fixed::from_int(2048)),
        c.raw() * SCALE <= 0x8_0000_0000_0000 * x_init.raw(),
        step_tolerance_or_default(tolerance).defined(),
        step_tolerance_or_default(tolerance).raw() >= 64,
        iterations_or_default(max_iters) >= 64,
    ensures
        ({
            let found = newton_raphson_spec(
                square_residual(c),
                square_slope(),
                x_init,
                tolerance,
                max_iters,
            );
            &&& found is Ok
            &&& (found->Ok_0).gt(Fixed::zero())
            &&& c.sqrt().defined()
            &&& (found->Ok_0).minus(c.sqrt()).abs().le(step_tolerance_or_default(tolerance))
        }),
{
    let tol = step_tolerance_or_default(tolerance);
    let cap = iterations_or_default(max_iters);
    let a = x_init.raw();
    let n0 = c.raw() * SCALE;
    assert(n0 >= 0) by (nonlinear_arith)
        requires
            n0 == c.raw() * SCALE,
            c.raw() >= 0,
            SCALE > 0,
    ;
    lemma_floor_sqrt_exists(n0 as nat);
    let r = floor_sqrt(n0);
    let q = round_div((round_div(a * a, SCALE as int) - c.raw()) * SCALE, 2 * a);
    lemma_square_root_bounds(c.raw(), r);
    lemma_square_step_bounds(a, c.raw(), r, q);
    lemma_square_step_defined(c, x_init, tol, r);
    let next = newton_step(square_residual(c), square_slope(), x_init);
    if next.minus(x_init).abs().le(tol) {
    } else {
        lemma_newton_square_root_converges_from_below(c, next, tol, (cap - 1) as nat, r);
    }
    assert(finds_square_root(c, x_init, tol, cap, r));
    assert(c.sqrt() == Fixed::wrap(r));
}

/// The second component's derivative of the system `y1' = y2`, `y2' = y2`,
/// whose second component is the exponential.
pub open spec fn exponential_slope() -> spec_fn(Fixed, Fixed, Fixed) -> Fixed {
    |r: Fixed, y1: Fixed, y2: Fixed| y2
}

/// The degree-four Taylor polynomial of the exponential at `h`, applied to
/// `y`, on raw integers and times `24 s^4` to stay whole, with `s = 2^40` the
/// scale: `24 s^4 y + 24 s^3 h y + 12 s^2 h^2 y + 4 s h^3 y + h^4 y`.
pub open spec fn exponential_taylor_four(h: int, y: int) -> int {
    0x18_0000_0000_0000_0000_0000_0000_0000_0000_0000_0000 * y + 0x1800_0000_0000_0000_0000_0000_0000_0000 * (h * y) + 0xc_0000_0000_0000_0000_0000 * (h * (h * y)) + 0x400_0000_0000 * (h * (h
        * (h * y))) + h * (h * (h * (h * y)))
}

/// The product of two bounded integers is bounded by the product of the
/// bounds.
proof fn lemma_product_within(x: int, bound_x: int, y: int, bound_y: int)
    requires
        -bound_x <= x <= bound_x,
        -bound_y <= y <= bound_y,
    ensures
        -(bound_x * bound_y) <= x * y <= bound_x * bound_y,
{
    assert(-(bound_x * bound_y) <= x * y <= bound_x * bound_y) by (nonlinear_arith)
        requires
            -bound_x <= x <= bound_x,
            -bound_y <= y <= bound_y,
    ;
}

/// The algebra of one Runge-Kutta step for the exponential: four stage
/// increments, two of them halved, and a sixth of the weighted sum, each
/// rounded to the nearest integer, add up to the degree-four Taylor
/// polynomial within two units.
#[verifier::rlimit(50)]
proof fn lemma_exponential_step_algebra(
    h: int,
    y: int,
    k1: int,
    hk1: int,
    k2: int,
    hk2: int,
    k3: int,
    k4: int,
    d: int,
)
    requires
        -0x100_0000_0000 <= h <= 0x100_0000_0000,
        -0x100_0000_0000 <= 2 * (h * y - 0x100_0000_0000 * k1) <= 0x100_0000_0000,
        -2 <= 2 * (k1 - 2 * hk1) <= 2,
        -0x100_0000_0000 <= 2 * (h * (y + hk1) - 0x100_0000_0000 * k2) <= 0x100_0000_0000,
        -2 <= 2 * (k2 - 2 * hk2) <= 2,
        -0x100_0000_0000 <= 2 * (h * (y + hk2) - 0x100_0000_0000 * k3) <= 0x100_0000_0000,
        -0x100_0000_0000 <= 2 * (h * (y + k3) - 0x100_0000_0000 * k4) <= 0x100_0000_0000,
        -6 <= 2 * ((k1 + 2 * k2 + 2 * k3 + k4) - 6 * d) <= 6,
    ensures
        -0x30_0000_0000_0000_0000_0000_0000_0000_0000_0000_0000 <= 0x18_0000_0000_0000_0000_0000_0000_0000_0000_0000_0000 * (y + d) - exponential_taylor_four(h, y) <= 0x30_0000_0000_0000_0000_0000_0000_0000_0000_0000_0000,
{
    let bound = 0x100_0000_0000int;
    assert(bound * bound == 0x1_0000_0000_0000_0000_0000) by (nonlinear_arith)
        requires
            bound == 0x100_0000_0000,
    ;
    assert(bound * 0x5_0000_0000_0000_0000_0000 == 0x500_0000_0000_0000_0000_0000_0000_0000) by (nonlinear_arith)
        requires
            bound == 0x100_0000_0000,
    ;
    assert(bound * 0xd00_0000_0000_0000_0000_0000_0000_0000 == 0xd_0000_0000_0000_0000_0000_0000_0000_0000_0000_0000) by (nonlinear_arith)
        requires
            bound == 0x100_0000_0000,
    ;
    // second stage: twice the scale squared times k2 is (2 s h + h^2) y within the error
    assert(h * (y + hk1) == h * y + h * hk1) by (nonlinear_arith);
    assert(h * (k1 - 2 * hk1) == h * k1 - 2 * (h * hk1)) by (nonlinear_arith);
    assert(0x100_0000_0000 * (h * k1) == h * (h * y) - h * (h * y - 0x100_0000_0000 * k1)) by (nonlinear_arith);
    assert(2 * (0x2_0000_0000_0000_0000_0000 * k2 - (0x200_0000_0000 * (h * y) + h * (h * y))) == -(2 * (h * (h * y - 0x100_0000_0000 * k1))) - 0x200_0000_0000 * (h * (k1 - 2 * hk1)) - 0x400_0000_0000 * (h * (y + hk1) - 0x100_0000_0000 * k2));
    lemma_product_within(h, bound, 2 * (h * y - 0x100_0000_0000 * k1), bound);
    assert(h * (2 * (h * y - 0x100_0000_0000 * k1)) == 2 * (h * (h * y - 0x100_0000_0000 * k1))) by (nonlinear_arith);
    lemma_product_within(h, bound, (k1 - 2 * hk1), 1);
    assert(-0x5_0000_0000_0000_0000_0000 <= 2 * (0x2_0000_0000_0000_0000_0000 * k2 - (0x200_0000_0000 * (h * y) + h * (h * y))) <= 0x5_0000_0000_0000_0000_0000);
    // third stage
    assert(h * (y + hk2) == h * y + h * hk2) by (nonlinear_arith);
    assert(h * (k2 - 2 * hk2) == h * k2 - 2 * (h * hk2)) by (nonlinear_arith);
    assert(0x2_0000_0000_0000_0000_0000 * (h * k2) == 0x200_0000_0000 * (h * (h * y)) + h * (h * (h * y)) + h * (0x2_0000_0000_0000_0000_0000 * k2 - (0x200_0000_0000 * (h * y) + h * (h * y)))) by (nonlinear_arith);
    assert(2 * (0x400_0000_0000_0000_0000_0000_0000_0000 * k3 - (0x4_0000_0000_0000_0000_0000 * (h * y) + 0x200_0000_0000 * (h * (h * y)) + h * (h * (h * y)))) == 2 * (h * (0x2_0000_0000_0000_0000_0000 * k2 - (0x200_0000_0000 * (h * y) + h * (h * y)))) - 0x4_0000_0000_0000_0000_0000 * (h * (k2 - 2 * hk2)) - 0x8_0000_0000_0000_0000_0000 * (h * (y + hk2) - 0x100_0000_0000 * k3));
    lemma_product_within(h, bound, 2 * (0x2_0000_0000_0000_0000_0000 * k2 - (0x200_0000_0000 * (h * y) + h * (h * y))), 0x5_0000_0000_0000_0000_0000int);
    assert(h * (2 * (0x2_0000_0000_0000_0000_0000 * k2 - (0x200_0000_0000 * (h * y) + h * (h * y)))) == 2 * (h * (0x2_0000_0000_0000_0000_0000 * k2 - (0x200_0000_0000 * (h * y) + h * (h * y))))) by (nonlinear_arith);
    lemma_product_within(h, bound, (k2 - 2 * hk2), 1);
    assert(-0xd00_0000_0000_0000_0000_0000_0000_0000 <= 2 * (0x400_0000_0000_0000_0000_0000_0000_0000 * k3 - (0x4_0000_0000_0000_0000_0000 * (h * y) + 0x200_0000_0000 * (h * (h * y)) + h * (h * (h * y)))) <= 0xd00_0000_0000_0000_0000_0000_0000_0000);
    // fourth stage
    assert(h * (y + k3) == h * y + h * k3) by (nonlinear_arith);
    assert(0x400_0000_0000_0000_0000_0000_0000_0000 * (h * k3) == 0x4_0000_0000_0000_0000_0000 * (h * (h * y)) + 0x200_0000_0000 * (h * (h * (h * y))) + h * (h * (h * (h * y))) + h * (0x400_0000_0000_0000_0000_0000_0000_0000 * k3 - (0x4_0000_0000_0000_0000_0000 * (h * y) + 0x200_0000_0000 * (h * (h * y)) + h * (h * (h * y)))))
        by (nonlinear_arith);
    assert(2 * (0x4_0000_0000_0000_0000_0000_0000_0000_0000_0000_0000 * k4 - (0x400_0000_0000_0000_0000_0000_0000_0000 * (h * y) + 0x4_0000_0000_0000_0000_0000 * (h * (h * y)) + 0x200_0000_0000 * (h * (h * (h * y))) + h * (h * (h * (h * y))))) == 2 * (h * (0x400_0000_0000_0000_0000_0000_0000_0000 * k3 - (0x4_0000_0000_0000_0000_0000 * (h * y) + 0x200_0000_0000 * (h * (h * y)) + h * (h * (h * y))))) - 0x800_0000_0000_0000_0000_0000_0000_0000 * (h * (y + k3) - 0x100_0000_0000 * k4));
    lemma_product_within(h, bound, 2 * (0x400_0000_0000_0000_0000_0000_0000_0000 * k3 - (0x4_0000_0000_0000_0000_0000 * (h * y) + 0x200_0000_0000 * (h * (h * y)) + h * (h * (h * y)))), 0xd00_0000_0000_0000_0000_0000_0000_0000int);
    assert(h * (2 * (0x400_0000_0000_0000_0000_0000_0000_0000 * k3 - (0x4_0000_0000_0000_0000_0000 * (h * y) + 0x200_0000_0000 * (h * (h * y)) + h * (h * (h * y))))) == 2 * (h * (0x400_0000_0000_0000_0000_0000_0000_0000 * k3 - (0x4_0000_0000_0000_0000_0000 * (h * y) + 0x200_0000_0000 * (h * (h * y)) + h * (h * (h * y)))))) by (nonlinear_arith);
    assert(-0x11_0000_0000_0000_0000_0000_0000_0000_0000_0000_0000 <= 2 * (0x4_0000_0000_0000_0000_0000_0000_0000_0000_0000_0000 * k4 - (0x400_0000_0000_0000_0000_0000_0000_0000 * (h * y) + 0x4_0000_0000_0000_0000_0000 * (h * (h * y)) + 0x200_0000_0000 * (h * (h * (h * y))) + h * (h * (h * (h * y))))) <= 0x11_0000_0000_0000_0000_0000_0000_0000_0000_0000_0000);
    // the weighted sum and its sixth
    assert(0x18_0000_0000_0000_0000_0000_0000_0000_0000_0000_0000 * (y + d) - exponential_taylor_four(h, y) == -(0x400_0000_0000_0000_0000_0000_0000_0000 * (h * y - 0x100_0000_0000 * k1))
        + 0x4_0000_0000_0000_0000_0000 * (0x2_0000_0000_0000_0000_0000 * k2 - (0x200_0000_0000 * (h * y) + h * (h * y))) + 0x200_0000_0000 * (0x400_0000_0000_0000_0000_0000_0000_0000 * k3 - (0x4_0000_0000_0000_0000_0000 * (h * y) + 0x200_0000_0000 * (h * (h * y)) + h * (h * (h * y)))) + (0x4_0000_0000_0000_0000_0000_0000_0000_0000_0000_0000 * k4 - (0x400_0000_0000_0000_0000_0000_0000_0000 * (h * y) + 0x4_0000_0000_0000_0000_0000 * (h * (h * y)) + 0x200_0000_0000 * (h * (h * (h * y))) + h * (h * (h * (h * y))))) - 0x4_0000_0000_0000_0000_0000_0000_0000_0000_0000_0000 * ((k1 + 2 * k2 + 2 * k3 + k4) - 6 * d));
}

/// The order of the Runge-Kutta step, on the exponential. One step of size
/// `h`, no longer than one, for `y' = y` multiplies `y` by the degree-four
/// Taylor polynomial of the exponential, `1 + h + h^2/2 + h^3/6 + h^4/24`,
/// within two raw units: the step agrees with the exponential through the
/// fourth order in `h`, whatever the roundings of its seven operations.
#[verifier::rlimit(50)]
pub proof fn lemma_rk4_step_exponential(r: Fixed, y1: Fixed, y: Fixed, h: Fixed)
    requires
        h.defined(),
        -SCALE <= h.raw() <= SCALE,
        y.defined(),
        -0x400_0000_0000_0000 <= y.raw() <= 0x400_0000_0000_0000,
    ensures
        ({
            let next = rk4_step_spec(exponential_slope(), r, y1, y, h).1;
            &&& next.defined()
            &&& -0x30_0000_0000_0000_0000_0000_0000_0000_0000_0000_0000 <= 0x18_0000_0000_0000_0000_0000_0000_0000_0000_0000_0000 * next.raw() - exponential_taylor_four(
                h.raw(),
                y.raw(),
            ) <= 0x30_0000_0000_0000_0000_0000_0000_0000_0000_0000_0000
        }),
{
    let s = 0x100_0000_0000int;
    let hh = h.raw();
    let yy = y.raw();
    let bound = 0x400_0000_0000_0000int;
    let k1 = round_div(hh * yy, s);
    let hk1 = round_div(k1, 2);
    let k2 = round_div(hh * (yy + hk1), s);
    let hk2 = round_div(k2, 2);
    let k3 = round_div(hh * (yy + hk2), s);
    let k4 = round_div(hh * (yy + k3), s);
    let sum = k1 + 2 * k2 + 2 * k3 + k4;
    let d = round_div(sum, 6);
    lemma_round_div_error(hh * yy, s);
    lemma_round_div_error(k1, 2);
    lemma_round_div_error(hh * (yy + hk1), s);
    lemma_round_div_error(k2, 2);
    lemma_round_div_error(hh * (yy + hk2), s);
    lemma_round_div_error(hh * (yy + k3), s);
    lemma_round_div_error(sum, 6);
    // every intermediate value is in range
    lemma_product_within(hh, s, yy, bound);
    assert(-(bound + 1) <= k1 <= bound + 1) by (nonlinear_arith)
        requires
            -(s * bound) <= hh * yy <= s * bound,
            -s <= 2 * (hh * yy - s * k1) <= s,
            s > 0,
    ;
    lemma_product_within(hh, s, yy + hk1, 2 * bound);
    assert(-(2 * bound + 1) <= k2 <= 2 * bound + 1) by (nonlinear_arith)
        requires
            -(s * (2 * bound)) <= hh * (yy + hk1) <= s * (2 * bound),
            -s <= 2 * (hh * (yy + hk1) - s * k2) <= s,
            s > 0,
    ;
    lemma_product_within(hh, s, yy + hk2, 3 * bound);
    assert(-(3 * bound + 1) <= k3 <= 3 * bound + 1) by (nonlinear_arith)
        requires
            -(s * (3 * bound)) <= hh * (yy + hk2) <= s * (3 * bound),
            -s <= 2 * (hh * (yy + hk2) - s * k3) <= s,
            s > 0,
    ;
    lemma_product_within(hh, s, yy + k3, 5 * bound);
    assert(-(5 * bound + 1) <= k4 <= 5 * bound + 1) by (nonlinear_arith)
        requires
            -(s * (5 * bound)) <= hh * (yy + k3) <= s * (5 * bound),
            -s <= 2 * (hh * (yy + k3) - s * k4) <= s,
            s > 0,
    ;
    let stage1 = h.times(y);
    let stage2 = h.times(y.plus(stage1.half()));
    let stage3 = h.times(y.plus(stage2.half()));
    let stage4 = h.times(y.plus(stage3));
    assert(stage1.defined() && stage1.raw() == k1);
    assert(stage1.half().defined() && stage1.half().raw() == hk1);
    assert(stage2.defined() && stage2.raw() == k2);
    assert(stage2.half().defined() && stage2.half().raw() == hk2);
    assert(stage3.defined() && stage3.raw() == k3);
    assert(stage4.defined() && stage4.raw() == k4);
    assert(stage2.twice().defined() && stage2.twice().raw() == 2 * k2);
    assert(stage3.twice().defined() && stage3.twice().raw() == 2 * k3);
    assert(stage1.plus(stage2.twice()).defined());
    assert(stage1.plus(stage2.twice()).plus(stage3.twice()).defined());
    let total = stage1.plus(stage2.twice()).plus(stage3.twice()).plus(stage4);
    assert(total.defined() && total.raw() == sum);
    assert(total.div_int(6).defined() && total.div_int(6).raw() == d);
    let next = rk4_step_spec(exponential_slope(), r, y1, y, h).1;
    assert(next == y.plus(total.div_int(6)));
    assert(next.defined() && next.raw() == yy + d);
    lemma_exponential_step_algebra(hh, yy, k1, hk1, k2, hk2, k3, k4, d);
}

/// The Taylor polynomial grows with `y` when the step is not negative.
proof fn lemma_taylor_four_monotone(h: int, y: int, u: int)
    requires
        h >= 0,
        y <= u,
    ensures
        exponential_taylor_four(h, y) <= exponential_taylor_four(h, u),
        y >= 0 ==> exponential_taylor_four(h, y) >= 0x18_0000_0000_0000_0000_0000_0000_0000_0000_0000_0000int * y,
{
    assert(h * y <= h * u) by (nonlinear_arith)
        requires
            h >= 0,
            y <= u,
    ;
    let y1 = h * y;
    let u1 = h * u;
    assert(h * y1 <= h * u1) by (nonlinear_arith)
        requires
            h >= 0,
            y1 <= u1,
    ;
    let y2 = h * y1;
    let u2 = h * u1;
    assert(h * y2 <= h * u2) by (nonlinear_arith)
        requires
            h >= 0,
            y2 <= u2,
    ;
    let y3 = h * y2;
    let u3 = h * u2;
    assert(h * y3 <= h * u3) by (nonlinear_arith)
        requires
            h >= 0,
            y3 <= u3,
    ;
    if y >= 0 {
        assert(h * y >= 0) by (nonlinear_arith)
            requires
                h >= 0,
                y >= 0,
        ;
        assert(h * y1 >= 0) by (nonlinear_arith)
            requires
                h >= 0,
                y1 >= 0,
        ;
        assert(h * y2 >= 0) by (nonlinear_arith)
            requires
                h >= 0,
                y2 >= 0,
        ;
        assert(h * y3 >= 0) by (nonlinear_arith)
            requires
                h >= 0,
                y3 >= 0,
        ;
    }
}

/// The most that one step can make of `y`: the Taylor polynomial applied to
/// `y`, rounded down, and two raw units.
pub open spec fn exponential_step_upper(h: int, y: int) -> int {
    exponential_taylor_four(h, y) / 0x18_0000_0000_0000_0000_0000_0000_0000_0000_0000_0000int + 2
}

/// The least that one step can make of `y`: the Taylor polynomial applied to
/// `y`, rounded down, less two raw units.
pub open spec fn exponential_step_lower(h: int, y: int) -> int {
    exponential_taylor_four(h, y) / 0x18_0000_0000_0000_0000_0000_0000_0000_0000_0000_0000int - 2
}

/// The most that `steps` steps can make of `y`.
pub open spec fn exponential_march_upper(h: int, y: int, steps: nat) -> int
    decreases steps,
{
    if steps == 0 {
        y
    } else {
        exponential_march_upper(h, exponential_step_upper(h, y), (steps - 1) as nat)
    }
}

/// The least that `steps` steps can make of `y`.
pub open spec fn exponential_march_lower(h: int, y: int, steps: nat) -> int
    decreases steps,
{
    if steps == 0 {
        y
    } else {
        exponential_march_lower(h, exponential_step_lower(h, y), (steps - 1) as nat)
    }
}

/// The two envelopes grow with the value they start from, and the upper one
/// does not fall below a start that is not negative.
proof fn lemma_exponential_march_monotone(h: int, y: int, u: int, steps: nat)
    requires
        h >= 0,
        y <= u,
    ensures
        exponential_march_upper(h, y, steps) <= exponential_march_upper(h, u, steps),
        exponential_march_lower(h, y, steps) <= exponential_march_lower(h, u, steps),
        y >= 0 ==> exponential_march_upper(h, y, steps) >= y,
    decreases steps,
{
    if steps > 0 {
        lemma_taylor_four_monotone(h, y, u);
        lemma_exponential_march_monotone(
            h,
            exponential_step_upper(h, y),
            exponential_step_upper(h, u),
            (steps - 1) as nat,
        );
        lemma_exponential_march_monotone(
            h,
            exponential_step_lower(h, y),
            exponential_step_lower(h, u),
            (steps - 1) as nat,
        );
    }
}

/// The order of the Runge-Kutta march, on the exponential. For `y' = y` from
/// a value of at least two raw units for every step, with a step size between
/// zero and one, the value after `steps` steps lies between the two
/// envelopes: each step multiplies by the degree-four Taylor polynomial of
/// the exponential, `1 + h + h^2/2 + h^3/6 + h^4/24`, within two raw units
/// either way. The upper envelope has to stay below `2^18`.
#[verifier::rlimit(50)]
pub proof fn lemma_rk4_march_exponential(r: Fixed, y1: Fixed, y: Fixed, h: Fixed, steps: nat)
    requires
        h.defined(),
        0 <= h.raw() <= SCALE,
        y.defined(),
        y.raw() >= 2 * steps,
        exponential_march_upper(h.raw(), y.raw(), steps) <= 0x400_0000_0000_0000,
    ensures
        ({
            let end = rk4_march_spec(exponential_slope(), r, y1, y, h, steps).2;
            &&& end.defined()
            &&& exponential_march_lower(h.raw(), y.raw(), steps) <= end.raw()
            &&& end.raw() <= exponential_march_upper(h.raw(), y.raw(), steps)
        }),
    decreases steps,
{
    if steps > 0 {
        let next = rk4_step_spec(exponential_slope(), r, y1, y, h);
        lemma_exponential_march_monotone(h.raw(), y.raw(), y.raw(), steps);
        lemma_rk4_step_exponential(r, y1, y, h);
        lemma_taylor_four_monotone(h.raw(), y.raw(), y.raw());
        assert(exponential_step_lower(h.raw(), y.raw()) <= next.1.raw());
        assert(next.1.raw() <= exponential_step_upper(h.raw(), y.raw()));
        assert(next.1.raw() >= y.raw() - 2);
        lemma_exponential_march_monotone(
            h.raw(),
            next.1.raw(),
            exponential_step_upper(h.raw(), y.raw()),
            (steps - 1) as nat,
        );
        lemma_exponential_march_monotone(
            h.raw(),
            exponential_step_lower(h.raw(), y.raw()),
            next.1.raw(),
            (steps - 1) as nat,
        );
        lemma_rk4_march_exponential(r.plus(h), next.0, next.1, h, (steps - 1) as nat);
    }
}

} // verus!
