//! Where the stagnation-pressure inversion of a normal shock is owed a Mach
//! number.
//!
//! The inversion ends in a search on the logarithmic residual between Mach
//! one and Mach 1024. The lemmas here bound that residual through the
//! bounds of the logarithm: it is a number at every Mach number of the
//! search for specific-heat ratios between 1.0625 and 3, and for ratios
//! between 1.125 and 1.75 it is negative at Mach 1024 for every
//! stagnation-pressure ratio of at least 2^-16. On that range the search
//! finds a sign change, and the inversion returns a Mach number.

use vstd::prelude::*;
use vstd::arithmetic::power2::{lemma2_to64, pow2};
use crate::bounds::{
    lemma_logarithm_above_one, lemma_logarithm_below_two, lemma_logarithm_is_total,
    lemma_quotient_between, lemma_scaled_product_at_most, lemma_scaled_product_below,
    lemma_scaled_product_between, lemma_scaled_product_within, MANTISSA_LOGARITHM_MAX_RAW,
};
use crate::fixed::{Fixed, LN_2_RAW};
use crate::normalshock::{
    calc_upstream_mach_from_stagnation_pressure_ratio_spec, stagnation_log_residual_function,
    stagnation_log_residual_spec, stagnation_search_spec, SEARCH_TOP_RAW,
};
use crate::numerics::lemma_bisection_returns_bracketed_root;
use crate::owed::ratio_in_range;

verus! {

/// The inputs on which the inversion is owed a Mach number: a specific-heat
/// ratio between 1.125 and 1.75 and a stagnation-pressure ratio between 2^-16
/// and one.
pub open spec fn inversion_is_owed(
    stagnation_pressure_ratio: Fixed,
    specific_heat_ratio: Fixed,
) -> bool {
    &&& specific_heat_ratio.defined()
    &&& 0x120_0000_0000 <= specific_heat_ratio.raw() <= 0x1c0_0000_0000
    &&& stagnation_pressure_ratio.defined()
    &&& 0x100_0000 <= stagnation_pressure_ratio.raw() <= 0x100_0000_0000
}

/// The logarithmic residual is a number at every Mach number from one to
/// 1024, for a positive stagnation-pressure ratio of at most one and a
/// specific-heat ratio between 1.0625 and 3.
pub proof fn lemma_log_residual_is_total(
    upstream_mach: Fixed,
    specific_heat_ratio: Fixed,
    stagnation_pressure_ratio: Fixed,
)
    requires
        ratio_in_range(specific_heat_ratio),
        upstream_mach.defined(),
        0x100_0000_0000 <= upstream_mach.raw() <= SEARCH_TOP_RAW,
        stagnation_pressure_ratio.gt(Fixed::zero()),
    ensures
        stagnation_log_residual_spec(
            upstream_mach,
            specific_heat_ratio,
            stagnation_pressure_ratio,
        ).defined(),
{
    let g = specific_heat_ratio;
    let gm = g.minus(Fixed::one());
    let gp = g.plus(Fixed::one());
    let msq = upstream_mach.squared();
    lemma_scaled_product_between(
        upstream_mach.raw(),
        upstream_mach.raw(),
        0x100_0000_0000,
        0x4_0000_0000_0000,
        0x100_0000_0000,
        0x4_0000_0000_0000,
    );
    assert(msq.defined() && 0x100_0000_0000 <= msq.raw() <= 0x1000_0000_0000_0001);
    let a = gp.times(msq);
    lemma_scaled_product_between(
        gp.raw(),
        msq.raw(),
        0x200_0000_0000,
        0x400_0000_0000,
        0x100_0000_0000,
        0x1000_0000_0000_0001,
    );
    assert(a.defined() && a.raw() >= 0x200_0000_0000);
    let scaled = gm.times(msq);
    lemma_scaled_product_between(
        gm.raw(),
        msq.raw(),
        0,
        0x200_0000_0000,
        0x100_0000_0000,
        0x1000_0000_0000_0001,
    );
    let b = scaled.plus(Fixed::from_int(2));
    assert(b.defined() && b.raw() >= 0x200_0000_0000);
    let doubled = g.twice().times(msq);
    lemma_scaled_product_between(
        g.twice().raw(),
        msq.raw(),
        0x220_0000_0000,
        0x600_0000_0000,
        0x100_0000_0000,
        0x1000_0000_0000_0001,
    );
    let c = doubled.minus(gm);
    assert(c.defined() && c.raw() >= 0x20_0000_0000);
    lemma_logarithm_is_total(a);
    lemma_logarithm_is_total(b);
    lemma_logarithm_is_total(gp);
    lemma_logarithm_is_total(c);
    lemma_logarithm_is_total(stagnation_pressure_ratio);
    let d1 = a.ln().minus(b.ln());
    let d2 = gp.ln().minus(c.ln());
    assert(d1.defined() && -0x4000_0000_0000 <= d1.raw() <= 0x4000_0000_0000);
    assert(d2.defined() && -0x4000_0000_0000 <= d2.raw() <= 0x4000_0000_0000);
    let c1 = g.over(gm);
    lemma_quotient_between(g.raw() * 0x100_0000_0000, gm.raw(), 0, 0x1100_0000_0000);
    assert(c1.defined() && 0 <= c1.raw() <= 0x1100_0000_0000);
    let c2 = Fixed::one().over(gm);
    lemma_quotient_between(0x1_0000_0000_0000_0000_0000int, gm.raw(), 0, 0x1000_0000_0000);
    assert(c2.defined() && 0 <= c2.raw() <= 0x1000_0000_0000);
    lemma_scaled_product_within(c1.raw(), d1.raw(), 0x1100_0000_0000, 0x4000_0000_0000);
    lemma_scaled_product_within(c2.raw(), d2.raw(), 0x1000_0000_0000, 0x4000_0000_0000);
    let t1 = c1.times(d1);
    let t2 = c2.times(d2);
    assert(t1.defined() && -0x44_0000_0000_0001 <= t1.raw() <= 0x44_0000_0000_0001);
    assert(t2.defined() && -0x40_0000_0000_0001 <= t2.raw() <= 0x40_0000_0000_0001);
}

/// The bound that [`lemma_log_residual_below`] gives for the logarithmic
/// residual at Mach 1024: the first term at most, the second term at most,
/// and the logarithm of the smallest stagnation-pressure ratio taken away.
pub open spec fn residual_bound_at_the_top(
    high_a: nat,
    low_b: nat,
    high_p: nat,
    low_c: nat,
    high_c1: int,
    low_c2: int,
    depth: nat,
) -> int {
    (high_c1 * ((high_a - low_b) * LN_2_RAW + MANTISSA_LOGARITHM_MAX_RAW)) / 0x100_0000_0000 + 1 - (
    low_c2 * ((low_c - high_p) * LN_2_RAW - MANTISSA_LOGARITHM_MAX_RAW)) / 0x100_0000_0000 + depth
        * LN_2_RAW
}

/// At Mach 1024 the logarithmic residual is negative for a band of
/// specific-heat ratios, from `low_g` to `high_g`, and every
/// stagnation-pressure ratio of at least `2^-depth`. The other parameters
/// are what the band gives: powers of two around the arguments of the four
/// logarithms, and bounds of the two coefficients. What is asked of them
/// says that they fit the band and that the bound they give,
/// [`residual_bound_at_the_top`], is negative.
pub proof fn lemma_log_residual_below(
    specific_heat_ratio: Fixed,
    stagnation_pressure_ratio: Fixed,
    low_g: int,
    high_g: int,
    high_a: nat,
    low_b: nat,
    high_p: nat,
    low_c: nat,
    high_c1: int,
    low_c2: int,
    depth: nat,
)
    requires
        specific_heat_ratio.defined(),
        0x110_0000_0000 <= low_g <= specific_heat_ratio.raw() <= high_g <= 0x200_0000_0000,
        stagnation_pressure_ratio.defined(),
        0 < stagnation_pressure_ratio.raw() <= 0x100_0000_0000,
        depth <= 40,
        0x100_0000_0000 <= stagnation_pressure_ratio.raw() * pow2(depth),
        low_b <= high_a <= 22,
        high_p + 2 <= low_c <= 22,
        (high_g + 0x100_0000_0000) * 0x10_0000 + 4 < 0x200_0000_0000 * pow2(high_a),
        0x100_0000_0000 * pow2(low_b) <= (low_g - 0x100_0000_0000) * 0x10_0000,
        high_g + 0x100_0000_0000 < 0x200_0000_0000 * pow2(high_p),
        0x100_0000_0000 * pow2(low_c) <= 0x20_0000 * low_g - (high_g - 0x100_0000_0000),
        0x100_0000_0000 <= high_c1 <= 0x1100_0000_0000,
        high_c1 * (low_g - 0x100_0000_0000) >= 0x100_0000_0000 * low_g,
        0 <= low_c2,
        low_c2 * (high_g - 0x100_0000_0000) <= 0x1_0000_0000_0000_0000_0000,
        residual_bound_at_the_top(high_a, low_b, high_p, low_c, high_c1, low_c2, depth) < 0,
    ensures
        stagnation_log_residual_spec(
            Fixed { bits: SEARCH_TOP_RAW },
            specific_heat_ratio,
            stagnation_pressure_ratio,
        ).lt(Fixed::zero()),
{
    lemma2_to64();
    let top = Fixed { bits: SEARCH_TOP_RAW };
    let g = specific_heat_ratio;
    lemma_log_residual_is_total(top, g, stagnation_pressure_ratio);
    let gm = g.minus(Fixed::one());
    let gp = g.plus(Fixed::one());
    let msq = top.squared();
    lemma_scaled_product_between(
        top.raw(),
        top.raw(),
        0x4_0000_0000_0000,
        0x4_0000_0000_0000,
        0x4_0000_0000_0000,
        0x4_0000_0000_0000,
    );
    assert(msq.defined() && 0x1000_0000_0000_0000 <= msq.raw() <= 0x1000_0000_0000_0001);
    let a = gp.times(msq);
    lemma_scaled_product_between(
        gp.raw(),
        msq.raw(),
        0x200_0000_0000,
        high_g + 0x100_0000_0000,
        0x1000_0000_0000_0000,
        0x1000_0000_0000_0001,
    );
    assert(a.defined() && 0x100_0000_0000 <= a.raw() < 0x200_0000_0000 * pow2(high_a));
    let scaled = gm.times(msq);
    lemma_scaled_product_between(
        gm.raw(),
        msq.raw(),
        low_g - 0x100_0000_0000,
        0x100_0000_0000,
        0x1000_0000_0000_0000,
        0x1000_0000_0000_0001,
    );
    let b = scaled.plus(Fixed::from_int(2));
    assert(b.defined() && 0x100_0000_0000 * pow2(low_b) <= b.raw() <= 0x2000_0000_0000_0000);
    let doubled = g.twice().times(msq);
    lemma_scaled_product_between(
        g.twice().raw(),
        msq.raw(),
        2 * low_g,
        0x400_0000_0000,
        0x1000_0000_0000_0000,
        0x1000_0000_0000_0001,
    );
    let c = doubled.minus(gm);
    assert(c.defined() && 0x100_0000_0000 * pow2(low_c) <= c.raw() <= 0x5000_0000_0000_0000);
    assert(pow2(0) == 1);
    assert(pow2(22) == 0x40_0000);
    lemma_logarithm_above_one(a, 0, high_a);
    lemma_logarithm_above_one(b, low_b, 22);
    assert(high_p <= 22);
    lemma_logarithm_above_one(gp, 0, high_p);
    lemma_logarithm_above_one(c, low_c, 22);
    lemma_logarithm_below_two(stagnation_pressure_ratio, depth);
    let d1 = a.ln().minus(b.ln());
    let d2 = gp.ln().minus(c.ln());
    let d1_max = (high_a - low_b) * LN_2_RAW + MANTISSA_LOGARITHM_MAX_RAW;
    let e_min = (low_c - high_p) * LN_2_RAW - MANTISSA_LOGARITHM_MAX_RAW;
    assert(d1_max == high_a * LN_2_RAW + MANTISSA_LOGARITHM_MAX_RAW - low_b * LN_2_RAW)
        by (nonlinear_arith)
        requires
            d1_max == (high_a - low_b) * LN_2_RAW + MANTISSA_LOGARITHM_MAX_RAW,
    ;
    assert(e_min == low_c * LN_2_RAW - (high_p * LN_2_RAW + MANTISSA_LOGARITHM_MAX_RAW))
        by (nonlinear_arith)
        requires
            e_min == (low_c - high_p) * LN_2_RAW - MANTISSA_LOGARITHM_MAX_RAW,
    ;
    assert(0 <= d1_max) by (nonlinear_arith)
        requires
            low_b <= high_a,
            d1_max == (high_a - low_b) * LN_2_RAW + MANTISSA_LOGARITHM_MAX_RAW,
    ;
    assert(0 <= e_min) by (nonlinear_arith)
        requires
            high_p + 2 <= low_c,
            e_min == (low_c - high_p) * LN_2_RAW - MANTISSA_LOGARITHM_MAX_RAW,
    ;
    assert(d1.defined() && d1.raw() <= d1_max);
    assert(d2.defined() && d2.raw() <= -e_min);
    let c1 = g.over(gm);
    assert(high_c1 * gm.raw() >= g.raw() * 0x100_0000_0000) by (nonlinear_arith)
        requires
            high_c1 * (low_g - 0x100_0000_0000) >= 0x100_0000_0000 * low_g,
            0x100_0000_0000 <= high_c1,
            low_g <= g.raw(),
            gm.raw() == g.raw() - 0x100_0000_0000,
    ;
    lemma_quotient_between(g.raw() * 0x100_0000_0000, gm.raw(), 0, high_c1);
    assert(c1.defined() && 0 <= c1.raw() <= high_c1);
    let c2 = Fixed::one().over(gm);
    assert(low_c2 * gm.raw() <= 0x1_0000_0000_0000_0000_0000) by (nonlinear_arith)
        requires
            low_c2 * (high_g - 0x100_0000_0000) <= 0x1_0000_0000_0000_0000_0000,
            0 <= low_c2,
            0 <= gm.raw() <= high_g - 0x100_0000_0000,
    ;
    lemma_quotient_between(0x1_0000_0000_0000_0000_0000int, gm.raw(), low_c2, 0x1000_0000_0000);
    assert(c2.defined() && low_c2 <= c2.raw());
    lemma_scaled_product_at_most(c1.raw(), d1.raw(), high_c1, d1_max);
    lemma_scaled_product_below(c2.raw(), d2.raw(), low_c2, e_min);
    let t1 = c1.times(d1);
    let t2 = c2.times(d2);
    assert(t1.defined() && t1.raw() <= (high_c1 * d1_max) / 0x100_0000_0000 + 1);
    assert(t2.defined() && t2.raw() <= -((low_c2 * e_min) / 0x100_0000_0000));
}

/// At Mach 1024 the logarithmic residual is negative, for a specific-heat
/// ratio between 1.125 and 1.75 and a stagnation-pressure ratio between
/// 2^-16 and one: every such ratio is reached below Mach 1024. The range
/// of the specific-heat ratio is covered by five bands.
pub proof fn lemma_log_residual_at_the_top(
    specific_heat_ratio: Fixed,
    stagnation_pressure_ratio: Fixed,
)
    requires
        inversion_is_owed(stagnation_pressure_ratio, specific_heat_ratio),
    ensures
        stagnation_log_residual_spec(
            Fixed { bits: SEARCH_TOP_RAW },
            specific_heat_ratio,
            stagnation_pressure_ratio,
        ).lt(Fixed::zero()),
{
    lemma2_to64();
    let g = specific_heat_ratio;
    let p = stagnation_pressure_ratio;
    assert(pow2(16) == 0x1_0000);
    assert(pow2(17) == 0x2_0000);
    assert(pow2(18) == 0x4_0000);
    assert(pow2(19) == 0x8_0000);
    assert(pow2(21) == 0x20_0000);
    assert(pow2(1) == 2);
    if g.raw() <= 0x140_0000_0000 {
        lemma_log_residual_below(
            g, p, 0x120_0000_0000, 0x140_0000_0000, 21, 17, 1, 21, 9895604649984, 4398046511104, 16,
        );
    } else if g.raw() <= 0x160_0000_0000 {
        lemma_log_residual_below(
            g, p, 0x140_0000_0000, 0x160_0000_0000, 21, 18, 1, 21, 5497558138880, 2932031007402, 16,
        );
    } else if g.raw() <= 0x180_0000_0000 {
        lemma_log_residual_below(
            g, p, 0x160_0000_0000, 0x180_0000_0000, 21, 18, 1, 21, 4031542635179, 2199023255552, 16,
        );
    } else if g.raw() <= 0x1a0_0000_0000 {
        lemma_log_residual_below(
            g, p, 0x180_0000_0000, 0x1a0_0000_0000, 21, 19, 1, 21, 3298534883328, 1759218604441, 16,
        );
    } else {
        lemma_log_residual_below(
            g, p, 0x1a0_0000_0000, 0x1c0_0000_0000, 21, 19, 1, 21, 2858730232218, 1466015503701, 16,
        );
    }
}

/// The inversion returns a Mach number on every input on which it is owed
/// one ([`inversion_is_owed`]).
pub proof fn lemma_inversion_succeeds(stagnation_pressure_ratio: Fixed, specific_heat_ratio: Fixed)
    requires
        inversion_is_owed(stagnation_pressure_ratio, specific_heat_ratio),
    ensures
        stagnation_search_spec(stagnation_pressure_ratio, specific_heat_ratio) is Ok,
        calc_upstream_mach_from_stagnation_pressure_ratio_spec(
            stagnation_pressure_ratio,
            specific_heat_ratio,
        ) is Ok,
{
    let top = Fixed { bits: SEARCH_TOP_RAW };
    let f = stagnation_log_residual_function(specific_heat_ratio, stagnation_pressure_ratio);
    lemma_log_residual_is_total(Fixed::one(), specific_heat_ratio, stagnation_pressure_ratio);
    lemma_log_residual_is_total(top, specific_heat_ratio, stagnation_pressure_ratio);
    lemma_log_residual_at_the_top(specific_heat_ratio, stagnation_pressure_ratio);
    assert forall|x: Fixed| Fixed::one().le(x) && x.le(top) implies (#[trigger] f(x)).defined() by {
        lemma_log_residual_is_total(x, specific_heat_ratio, stagnation_pressure_ratio);
    }
    lemma_bisection_returns_bracketed_root(f, Fixed::one(), top, None, None);
}

} // verus!
