//! Where the closed-form relations are owed a value.
//!
//! The relations that need no more than arithmetic and a square root are
//! followed through their roundings. Across a normal shock, for every
//! upstream Mach number from one to 1024 and every specific-heat ratio from
//! 1.0625 to 3, the values are numbers on the side of one that a shock puts
//! them: the pressure and the density do not fall, and the flow behind the
//! shock is not supersonic. The static-to-stagnation temperature ratio of an
//! isentropic flow and its inverse are owed on a like range.

use vstd::prelude::*;
use crate::bounds::{lemma_quotient_between, lemma_scaled_product_between};
use crate::elementary::{floor_sqrt, is_floor_sqrt, lemma_floor_sqrt_exists};
use crate::fixed::Fixed;
use crate::isentropic::{
    calc_mach_from_temperature_ratio_spec, calc_temperature_ratio_from_mach_spec,
};
use crate::normalshock::{
    calc_density_ratio_from_upstream_mach_spec, calc_downstream_mach_from_upstream_mach_spec,
    calc_pressure_ratio_from_upstream_mach_spec, calc_temperature_ratio_from_upstream_mach_spec,
    calc_upstream_mach_from_downstream_mach_spec, calc_upstream_mach_from_pressure_ratio_spec,
    downstream_mach_residual, SEARCH_TOP_RAW,
};
use crate::numerics::lemma_bisection_returns_bracketed_root;

verus! {

/// The specific-heat ratios of the lemmas here: 1.0625 to 3.
pub open spec fn ratio_in_range(specific_heat_ratio: Fixed) -> bool {
    specific_heat_ratio.defined() && 0x110_0000_0000 <= specific_heat_ratio.raw()
        <= 0x300_0000_0000
}

/// The inputs on which the relations across a normal shock are owed a
/// value: a Mach number from one to 1024 and a specific-heat ratio from
/// 1.0625 to 3.
pub open spec fn jump_is_owed(upstream_mach: Fixed, specific_heat_ratio: Fixed) -> bool {
    &&& ratio_in_range(specific_heat_ratio)
    &&& upstream_mach.defined()
    &&& 0x100_0000_0000 <= upstream_mach.raw() <= SEARCH_TOP_RAW
}

/// `(g + 1) M^2`, the numerator of the density ratio.
pub open spec fn density_numerator(upstream_mach: Fixed, specific_heat_ratio: Fixed) -> Fixed {
    specific_heat_ratio.plus(Fixed::one()).times(upstream_mach.squared())
}

/// `(g - 1) M^2 + 2`, the denominator of the density ratio.
pub open spec fn density_denominator(upstream_mach: Fixed, specific_heat_ratio: Fixed) -> Fixed {
    specific_heat_ratio.minus(Fixed::one()).times(upstream_mach.squared()).plus(Fixed::from_int(2))
}

/// `2 g M^2 - (g - 1)`, the numerator of the pressure ratio.
pub open spec fn pressure_numerator(upstream_mach: Fixed, specific_heat_ratio: Fixed) -> Fixed {
    specific_heat_ratio.twice().times(upstream_mach.squared()).minus(
        specific_heat_ratio.minus(Fixed::one()),
    )
}

/// The three terms are numbers, and they are ordered as the exact terms
/// are: `(g - 1) M^2 + 2` is at least two and at most each of the other
/// two, and `2 g M^2 - (g - 1)` is at least `g + 1`.
pub proof fn lemma_jump_terms(upstream_mach: Fixed, specific_heat_ratio: Fixed)
    requires
        jump_is_owed(upstream_mach, specific_heat_ratio),
    ensures
        density_numerator(upstream_mach, specific_heat_ratio).defined(),
        density_denominator(upstream_mach, specific_heat_ratio).defined(),
        pressure_numerator(upstream_mach, specific_heat_ratio).defined(),
        0x200_0000_0000 <= density_denominator(upstream_mach, specific_heat_ratio).raw(),
        density_denominator(upstream_mach, specific_heat_ratio).raw() <= density_numerator(
            upstream_mach,
            specific_heat_ratio,
        ).raw() <= 0x4000_0000_0000_0008,
        density_denominator(upstream_mach, specific_heat_ratio).raw() <= pressure_numerator(
            upstream_mach,
            specific_heat_ratio,
        ).raw() <= 0x6000_0000_0000_0008,
        specific_heat_ratio.raw() + 0x100_0000_0000 <= pressure_numerator(
            upstream_mach,
            specific_heat_ratio,
        ).raw(),
{
    let g = specific_heat_ratio.raw();
    let msq = upstream_mach.squared();
    lemma_scaled_product_between(
        upstream_mach.raw(),
        upstream_mach.raw(),
        0x100_0000_0000,
        0x4_0000_0000_0000,
        0x100_0000_0000,
        0x4_0000_0000_0000,
    );
    assert(msq.defined() && 0x100_0000_0000 <= msq.raw() <= 0x1000_0000_0000_0001);
    let m = msq.raw();
    let up = (g + 0x100_0000_0000) * m;
    let down = (g - 0x100_0000_0000) * m;
    let twice = (2 * g) * m;
    assert(up - down == 0x200_0000_0000 * m && twice - down == up) by (nonlinear_arith)
        requires
            up == (g + 0x100_0000_0000) * m,
            down == (g - 0x100_0000_0000) * m,
            twice == (2 * g) * m,
    ;
    assert(0 <= down && 0x100_0000_0000 * (g + 0x100_0000_0000) <= up && 0x100_0000_0000 * (2 * g)
        <= twice) by (nonlinear_arith)
        requires
            up == (g + 0x100_0000_0000) * m,
            down == (g - 0x100_0000_0000) * m,
            twice == (2 * g) * m,
            0x100_0000_0000 <= m,
            0x100_0000_0000 <= g,
    ;
    assert(up <= 0x400_0000_0000 * 0x1000_0000_0000_0001 && twice <= 0x600_0000_0000
        * 0x1000_0000_0000_0001) by (nonlinear_arith)
        requires
            up == (g + 0x100_0000_0000) * m,
            twice == (2 * g) * m,
            0 <= m <= 0x1000_0000_0000_0001,
            0x100_0000_0000 <= g <= 0x300_0000_0000,
    ;
}

/// The pressure does not fall across the shock: the pressure ratio is owed
/// and is at least one.
pub proof fn lemma_pressure_rises(upstream_mach: Fixed, specific_heat_ratio: Fixed)
    requires
        jump_is_owed(upstream_mach, specific_heat_ratio),
    ensures
        calc_pressure_ratio_from_upstream_mach_spec(upstream_mach, specific_heat_ratio) is Ok,
        Fixed::one().le(
            calc_pressure_ratio_from_upstream_mach_spec(upstream_mach, specific_heat_ratio)->Ok_0,
        ),
{
    lemma_jump_terms(upstream_mach, specific_heat_ratio);
    let c = pressure_numerator(upstream_mach, specific_heat_ratio).raw();
    let d = specific_heat_ratio.raw() + 0x100_0000_0000;
    assert(c * 0x100_0000_0000 <= c * d) by (nonlinear_arith)
        requires
            0 <= c,
            0x100_0000_0000 <= d,
    ;
    lemma_quotient_between(c * 0x100_0000_0000, d, 0x100_0000_0000, c);
}

/// The density does not fall across the shock: the density ratio is owed
/// and is at least one.
pub proof fn lemma_density_rises(upstream_mach: Fixed, specific_heat_ratio: Fixed)
    requires
        jump_is_owed(upstream_mach, specific_heat_ratio),
    ensures
        calc_density_ratio_from_upstream_mach_spec(upstream_mach, specific_heat_ratio) is Ok,
        Fixed::one().le(
            calc_density_ratio_from_upstream_mach_spec(upstream_mach, specific_heat_ratio)->Ok_0,
        ),
{
    lemma_jump_terms(upstream_mach, specific_heat_ratio);
    let a = density_numerator(upstream_mach, specific_heat_ratio).raw();
    let b = density_denominator(upstream_mach, specific_heat_ratio).raw();
    assert(a * 0x100_0000_0000 <= a * b) by (nonlinear_arith)
        requires
            0 <= a,
            0x100_0000_0000 <= b,
    ;
    lemma_quotient_between(a * 0x100_0000_0000, b, 0x100_0000_0000, a);
}

/// The flow behind the shock is not supersonic: the downstream Mach number
/// is owed, and it is positive and at most one.
pub proof fn lemma_flow_behind_is_not_supersonic(upstream_mach: Fixed, specific_heat_ratio: Fixed)
    requires
        jump_is_owed(upstream_mach, specific_heat_ratio),
    ensures
        calc_downstream_mach_from_upstream_mach_spec(upstream_mach, specific_heat_ratio) is Ok,
        (calc_downstream_mach_from_upstream_mach_spec(upstream_mach, specific_heat_ratio)->Ok_0).gt(
            Fixed::zero(),
        ),
        (calc_downstream_mach_from_upstream_mach_spec(upstream_mach, specific_heat_ratio)->Ok_0).le(
            Fixed::one(),
        ),
{
    lemma_jump_terms(upstream_mach, specific_heat_ratio);
    let b = density_denominator(upstream_mach, specific_heat_ratio);
    let c = pressure_numerator(upstream_mach, specific_heat_ratio);
    lemma_quotient_between(b.raw() * 0x100_0000_0000, c.raw(), 1, 0x100_0000_0000);
    let q = b.over(c);
    assert(q.defined() && 1 <= q.raw() <= 0x100_0000_0000);
    let n = q.raw() * 0x100_0000_0000;
    lemma_floor_sqrt_exists(n as nat);
    let r = floor_sqrt(n);
    assert(is_floor_sqrt(n, r));
    assert(1 <= r <= 0x100_0000_0000) by (nonlinear_arith)
        requires
            0 <= r,
            r * r <= n < (r + 1) * (r + 1),
            0x100_0000_0000 <= n <= 0x100_0000_0000 * 0x100_0000_0000,
    ;
}

/// The temperature ratio is owed.
pub proof fn lemma_temperature_ratio_is_owed(upstream_mach: Fixed, specific_heat_ratio: Fixed)
    requires
        jump_is_owed(upstream_mach, specific_heat_ratio),
    ensures
        calc_temperature_ratio_from_upstream_mach_spec(upstream_mach, specific_heat_ratio) is Ok,
{
    lemma_jump_terms(upstream_mach, specific_heat_ratio);
    lemma_pressure_rises(upstream_mach, specific_heat_ratio);
    let a = density_numerator(upstream_mach, specific_heat_ratio);
    let b = density_denominator(upstream_mach, specific_heat_ratio);
    let c = pressure_numerator(upstream_mach, specific_heat_ratio);
    let d = specific_heat_ratio.raw() + 0x100_0000_0000;
    assert(c.raw() * 0x100_0000_0000 <= c.raw() * d) by (nonlinear_arith)
        requires
            0 <= c.raw(),
            0x100_0000_0000 <= d,
    ;
    lemma_quotient_between(c.raw() * 0x100_0000_0000, d, 0, c.raw());
    let p = c.over(specific_heat_ratio.plus(Fixed::one()));
    assert(p.defined() && 0 <= p.raw() <= 0x6000_0000_0000_0008);
    lemma_quotient_between(b.raw() * 0x100_0000_0000, a.raw(), 0, 0x100_0000_0000);
    let t = b.over(a);
    assert(t.defined() && 0 <= t.raw() <= 0x100_0000_0000);
    lemma_scaled_product_between(
        p.raw(),
        t.raw(),
        0,
        0x6000_0000_0000_0008,
        0,
        0x100_0000_0000,
    );
}

/// The pressure ratios from which the upstream Mach number is owed: one to
/// 2^20, with a specific-heat ratio from 1.0625 to 3.
pub open spec fn pressure_inverse_is_owed(pressure_ratio: Fixed, specific_heat_ratio: Fixed) -> bool {
    &&& ratio_in_range(specific_heat_ratio)
    &&& pressure_ratio.defined()
    &&& 0x100_0000_0000 <= pressure_ratio.raw() <= 0x1000_0000_0000_0000
}

/// The upstream Mach number of a pressure ratio of at least one is owed and
/// is at least one.
pub proof fn lemma_upstream_mach_from_pressure_ratio(
    pressure_ratio: Fixed,
    specific_heat_ratio: Fixed,
)
    requires
        pressure_inverse_is_owed(pressure_ratio, specific_heat_ratio),
    ensures
        calc_upstream_mach_from_pressure_ratio_spec(pressure_ratio, specific_heat_ratio) is Ok,
        Fixed::one().le(
            calc_upstream_mach_from_pressure_ratio_spec(pressure_ratio, specific_heat_ratio)->Ok_0,
        ),
{
    let excess = pressure_ratio.minus(Fixed::one());
    let gp = specific_heat_ratio.plus(Fixed::one());
    lemma_scaled_product_between(
        excess.raw(),
        gp.raw(),
        0,
        0x1000_0000_0000_0000,
        0,
        0x400_0000_0000,
    );
    let product = excess.times(gp);
    assert(product.defined() && 0 <= product.raw() <= 0x4000_0000_0000_0001);
    let d = specific_heat_ratio.twice().raw();
    assert(product.raw() * 0x100_0000_0000 <= 0x4000_0000_0000_0001 * d) by (nonlinear_arith)
        requires
            0 <= product.raw() <= 0x4000_0000_0000_0001,
            0x100_0000_0000 <= d,
    ;
    lemma_quotient_between(product.raw() * 0x100_0000_0000, d, 0, 0x4000_0000_0000_0001);
    let q = product.over(specific_heat_ratio.twice()).plus(Fixed::one());
    assert(q.defined() && 0x100_0000_0000 <= q.raw() <= 0x4000_0100_0000_0001);
    let n = q.raw() * 0x100_0000_0000;
    lemma_floor_sqrt_exists(n as nat);
    let r = floor_sqrt(n);
    assert(is_floor_sqrt(n, r));
    assert(0x100_0000_0000 <= r <= 0x10_0000_0000_0000) by (nonlinear_arith)
        requires
            0 <= r,
            r * r <= n < (r + 1) * (r + 1),
            0x100_0000_0000 * 0x100_0000_0000 <= n <= 0x4000_0100_0000_0001 * 0x100_0000_0000,
    ;
}

/// The inversion of the downstream Mach number returns an upstream Mach
/// number exactly where one is to be had below Mach 1024: for a downstream
/// Mach number that is reached at Mach one, or that lies above the one
/// behind a shock at Mach 1024. This holds for every downstream Mach number
/// in (0, 1] and every specific-heat ratio from 1.0625 to 3.
pub proof fn lemma_downstream_mach_inversion(downstream_mach: Fixed, specific_heat_ratio: Fixed)
    requires
        ratio_in_range(specific_heat_ratio),
        downstream_mach.gt(Fixed::zero()),
        downstream_mach.le(Fixed::one()),
    ensures
        ({
            let top = Fixed { bits: SEARCH_TOP_RAW };
            let at_one = calc_downstream_mach_from_upstream_mach_spec(
                Fixed::one(),
                specific_heat_ratio,
            )->Ok_0;
            let at_top = calc_downstream_mach_from_upstream_mach_spec(top, specific_heat_ratio)->Ok_0;
            calc_upstream_mach_from_downstream_mach_spec(downstream_mach, specific_heat_ratio) is Ok
                <==> at_one.le(downstream_mach) || at_top.lt(downstream_mach)
        }),
{
    let top = Fixed { bits: SEARCH_TOP_RAW };
    let f = downstream_mach_residual(downstream_mach, specific_heat_ratio);
    lemma_flow_behind_is_not_supersonic(Fixed::one(), specific_heat_ratio);
    lemma_flow_behind_is_not_supersonic(top, specific_heat_ratio);
    assert forall|x: Fixed| Fixed::one().le(x) && x.le(top) implies (#[trigger] f(x)).defined() by {
        lemma_flow_behind_is_not_supersonic(x, specific_heat_ratio);
    }
    lemma_bisection_returns_bracketed_root(f, Fixed::one(), top, None, None);
}

/// The inputs on which the static-to-stagnation temperature ratio is owed:
/// a Mach number from zero to 1024 and a specific-heat ratio from 1.0625 to 3.
pub open spec fn temperature_ratio_is_owed(mach_number: Fixed, specific_heat_ratio: Fixed) -> bool {
    &&& ratio_in_range(specific_heat_ratio)
    &&& mach_number.defined()
    &&& 0 <= mach_number.raw() <= SEARCH_TOP_RAW
}

/// The static-to-stagnation temperature ratio is owed, and is at most one.
pub proof fn lemma_temperature_ratio(mach_number: Fixed, specific_heat_ratio: Fixed)
    requires
        temperature_ratio_is_owed(mach_number, specific_heat_ratio),
    ensures
        calc_temperature_ratio_from_mach_spec(mach_number, specific_heat_ratio) is Ok,
        (calc_temperature_ratio_from_mach_spec(mach_number, specific_heat_ratio)->Ok_0).le(
            Fixed::one(),
        ),
{
    let msq = mach_number.squared();
    lemma_scaled_product_between(
        mach_number.raw(),
        mach_number.raw(),
        0,
        0x4_0000_0000_0000,
        0,
        0x4_0000_0000_0000,
    );
    assert(msq.defined() && 0 <= msq.raw() <= 0x1000_0000_0000_0001);
    let half = specific_heat_ratio.minus(Fixed::one()).half();
    assert(half.defined() && 0 <= half.raw() <= 0x100_0000_0000);
    lemma_scaled_product_between(
        half.raw(),
        msq.raw(),
        0,
        0x100_0000_0000,
        0,
        0x1000_0000_0000_0001,
    );
    let factor = Fixed::one().plus(half.times(msq));
    assert(factor.defined() && 0x100_0000_0000 <= factor.raw() <= 0x1000_0100_0000_0002);
    lemma_quotient_between(0x1_0000_0000_0000_0000_0000int, factor.raw(), 1, 0x100_0000_0000);
}

/// The temperature ratios from which the Mach number is owed: 2^-16 to one,
/// with a specific-heat ratio from 1.0625 to 3.
pub open spec fn temperature_inverse_is_owed(
    temperature_ratio: Fixed,
    specific_heat_ratio: Fixed,
) -> bool {
    &&& ratio_in_range(specific_heat_ratio)
    &&& temperature_ratio.defined()
    &&& 0x100_0000 <= temperature_ratio.raw() <= 0x100_0000_0000
}

/// The Mach number of a static-to-stagnation temperature ratio is owed, and
/// is not negative.
pub proof fn lemma_mach_from_temperature_ratio(temperature_ratio: Fixed, specific_heat_ratio: Fixed)
    requires
        temperature_inverse_is_owed(temperature_ratio, specific_heat_ratio),
    ensures
        calc_mach_from_temperature_ratio_spec(temperature_ratio, specific_heat_ratio) is Ok,
        Fixed::zero().le(
            calc_mach_from_temperature_ratio_spec(temperature_ratio, specific_heat_ratio)->Ok_0,
        ),
{
    let t = temperature_ratio.raw();
    lemma_quotient_between(
        0x1_0000_0000_0000_0000_0000int,
        t,
        0x100_0000_0000,
        0x100_0000_0000_0000,
    );
    let factor = Fixed::one().over(temperature_ratio);
    assert(factor.defined() && 0x100_0000_0000 <= factor.raw() <= 0x100_0000_0000_0000);
    let doubled = factor.minus(Fixed::one()).twice();
    assert(doubled.defined() && 0 <= doubled.raw() <= 0x200_0000_0000_0000);
    let d = specific_heat_ratio.raw() - 0x100_0000_0000;
    assert(doubled.raw() * 0x100_0000_0000 <= 0x2000_0000_0000_0000 * d) by (nonlinear_arith)
        requires
            0 <= doubled.raw() <= 0x200_0000_0000_0000,
            0x10_0000_0000 <= d,
    ;
    lemma_quotient_between(doubled.raw() * 0x100_0000_0000, d, 0, 0x2000_0000_0000_0000);
    let q = doubled.over(specific_heat_ratio.minus(Fixed::one()));
    assert(q.defined() && 0 <= q.raw() <= 0x2000_0000_0000_0000);
    let n = q.raw() * 0x100_0000_0000;
    lemma_floor_sqrt_exists(n as nat);
    let r = floor_sqrt(n);
    assert(is_floor_sqrt(n, r));
    assert(0 <= r <= 0x10_0000_0000_0000) by (nonlinear_arith)
        requires
            0 <= r,
            r * r <= n < (r + 1) * (r + 1),
            0 <= n <= 0x2000_0000_0000_0000 * 0x100_0000_0000,
    ;
}

} // verus!
