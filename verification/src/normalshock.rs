//! Normal-shock relations for a calorically perfect gas.

use vstd::prelude::*;
use crate::fixed::Fixed;
use crate::isentropic::{
    checked, default_specific_heat_ratio, positive, specific_heat_ratio_or_default,
    stagnation_ratio, stagnation_ratio_spec,
    valid_specific_heat_ratio, IsentropicFlowError,
};
use vstd::arithmetic::power2::lemma2_to64;
use crate::owed::{
    jump_is_owed, lemma_density_rises, lemma_flow_behind_is_not_supersonic, lemma_pressure_rises,
    lemma_downstream_mach_inversion, lemma_temperature_ratio_is_owed,
    lemma_upstream_mach_from_pressure_ratio, pressure_inverse_is_owed, ratio_in_range,
};
use crate::stagnation::{inversion_is_owed, lemma_inversion_succeeds};
use crate::numerics::{
    bisection, bisection_run, bisection_spec, computes, iterations_or_default,
    lemma_bisection_decides_within, lemma_bisection_keeps_sign_change,
    lemma_bisection_root_bracketed, newton_raphson, newton_raphson_spec, same_sign,
    same_sign_spec, tolerance_or_default,
};

verus! {

/// The quantity a caller knows about a normal shock.
#[derive(Clone, Copy, Debug)]
pub enum Input {
    UpstreamMachNumber(Fixed),
    DownstreamMachNumber(Fixed),
    TemperatureRatio(Fixed),
    PressureRatio(Fixed),
    DensityRatio(Fixed),
    StagnationPressureRatio(Fixed),
}

/// The quantity a caller asks for.
#[derive(Clone, Copy, Debug)]
pub enum Output {
    UpstreamMachNumber,
    DownstreamMachNumber,
    TemperatureRatio,
    PressureRatio,
    DensityRatio,
    StagnationPressureRatio,
}

/// The value that `calc_downstream_mach_from_upstream_mach` returns.
pub open spec fn calc_downstream_mach_from_upstream_mach_spec(upstream_mach: Fixed, specific_heat_ratio: Fixed) -> Result<Fixed, IsentropicFlowError> {
    if !valid_specific_heat_ratio(specific_heat_ratio) {
        Err(IsentropicFlowError::InvalidSpecificHeatRatio)
    } else {
        checked(
            specific_heat_ratio.minus(Fixed::one()).times(upstream_mach.squared()).plus(Fixed::from_int(2)).over(specific_heat_ratio.twice().times(upstream_mach.squared()).minus(specific_heat_ratio.minus(Fixed::one()))).sqrt(),
        )
    }
}

/// Mach number behind a normal shock,
/// `sqrt(((g - 1) M^2 + 2) / (2 g M^2 - (g - 1)))`. For a Mach number from
/// one to 1024 and a specific-heat ratio from 1.0625 to 3
/// ([`jump_is_owed`]) the result is a number, positive and at most one.
#[verifier::when_used_as_spec(calc_downstream_mach_from_upstream_mach_spec)]
pub fn calc_downstream_mach_from_upstream_mach(upstream_mach: Fixed, specific_heat_ratio: Fixed) -> (r: Result<Fixed, IsentropicFlowError>)
    ensures
        r == calc_downstream_mach_from_upstream_mach_spec(upstream_mach, specific_heat_ratio),
        jump_is_owed(upstream_mach, specific_heat_ratio) ==> r is Ok && (r->Ok_0).gt(Fixed::zero())
            && (r->Ok_0).le(Fixed::one()),
{
    proof {
        if jump_is_owed(upstream_mach, specific_heat_ratio) {
            lemma_flow_behind_is_not_supersonic(upstream_mach, specific_heat_ratio);
        }
    }
    if !valid_specific_heat_ratio(specific_heat_ratio) {
        return Err(IsentropicFlowError::InvalidSpecificHeatRatio);
    }
    checked(
        specific_heat_ratio.minus(Fixed::one()).times(upstream_mach.squared()).plus(Fixed::from_int(2)).over(specific_heat_ratio.twice().times(upstream_mach.squared()).minus(specific_heat_ratio.minus(Fixed::one()))).sqrt(),
    )
}

/// The value that `calc_pressure_ratio_from_upstream_mach` returns.
pub open spec fn calc_pressure_ratio_from_upstream_mach_spec(upstream_mach: Fixed, specific_heat_ratio: Fixed) -> Result<Fixed, IsentropicFlowError> {
    if !valid_specific_heat_ratio(specific_heat_ratio) {
        Err(IsentropicFlowError::InvalidSpecificHeatRatio)
    } else {
        checked(
            specific_heat_ratio.twice().times(upstream_mach.squared()).minus(specific_heat_ratio.minus(Fixed::one())).over(specific_heat_ratio.plus(Fixed::one())),
        )
    }
}

/// Static pressure ratio across a normal shock,
/// `(2 g M^2 - (g - 1)) / (g + 1)`. For a Mach number from one to 1024 and a
/// specific-heat ratio from 1.0625 to 3 ([`jump_is_owed`]) the result is a
/// number of at least one.
#[verifier::when_used_as_spec(calc_pressure_ratio_from_upstream_mach_spec)]
pub fn calc_pressure_ratio_from_upstream_mach(upstream_mach: Fixed, specific_heat_ratio: Fixed) -> (r: Result<Fixed, IsentropicFlowError>)
    ensures
        r == calc_pressure_ratio_from_upstream_mach_spec(upstream_mach, specific_heat_ratio),
        jump_is_owed(upstream_mach, specific_heat_ratio) ==> r is Ok && Fixed::one().le(r->Ok_0),
{
    proof {
        if jump_is_owed(upstream_mach, specific_heat_ratio) {
            lemma_pressure_rises(upstream_mach, specific_heat_ratio);
        }
    }
    if !valid_specific_heat_ratio(specific_heat_ratio) {
        return Err(IsentropicFlowError::InvalidSpecificHeatRatio);
    }
    checked(
        specific_heat_ratio.twice().times(upstream_mach.squared()).minus(specific_heat_ratio.minus(Fixed::one())).over(specific_heat_ratio.plus(Fixed::one())),
    )
}

/// The value that `calc_temperature_ratio_from_upstream_mach` returns.
pub open spec fn calc_temperature_ratio_from_upstream_mach_spec(upstream_mach: Fixed, specific_heat_ratio: Fixed) -> Result<Fixed, IsentropicFlowError> {
    if !valid_specific_heat_ratio(specific_heat_ratio) {
        Err(IsentropicFlowError::InvalidSpecificHeatRatio)
    } else {
        checked(
            specific_heat_ratio.twice().times(upstream_mach.squared()).minus(specific_heat_ratio.minus(Fixed::one())).over(specific_heat_ratio.plus(Fixed::one())).times(specific_heat_ratio.minus(Fixed::one()).times(upstream_mach.squared()).plus(Fixed::from_int(2)).over(specific_heat_ratio.plus(Fixed::one()).times(upstream_mach.squared()))),
        )
    }
}

/// Static temperature ratio across a normal shock,
/// `(2 g M^2 - (g - 1)) ((g - 1) M^2 + 2) / ((g + 1)^2 M^2)`, formed as the
/// product of the two quotients `(2 g M^2 - (g - 1)) / (g + 1)` and
/// `((g - 1) M^2 + 2) / ((g + 1) M^2)`, so that no product of two large
/// numbers is formed. For a Mach number from one to 1024 and a
/// specific-heat ratio from 1.0625 to 3 ([`jump_is_owed`]) the result is a
/// number.
#[verifier::when_used_as_spec(calc_temperature_ratio_from_upstream_mach_spec)]
pub fn calc_temperature_ratio_from_upstream_mach(upstream_mach: Fixed, specific_heat_ratio: Fixed) -> (r: Result<Fixed, IsentropicFlowError>)
    ensures
        r == calc_temperature_ratio_from_upstream_mach_spec(upstream_mach, specific_heat_ratio),
        jump_is_owed(upstream_mach, specific_heat_ratio) ==> r is Ok,
{
    proof {
        if jump_is_owed(upstream_mach, specific_heat_ratio) {
            lemma_temperature_ratio_is_owed(upstream_mach, specific_heat_ratio);
        }
    }
    if !valid_specific_heat_ratio(specific_heat_ratio) {
        return Err(IsentropicFlowError::InvalidSpecificHeatRatio);
    }
    checked(
        specific_heat_ratio.twice().times(upstream_mach.squared()).minus(specific_heat_ratio.minus(Fixed::one())).over(specific_heat_ratio.plus(Fixed::one())).times(specific_heat_ratio.minus(Fixed::one()).times(upstream_mach.squared()).plus(Fixed::from_int(2)).over(specific_heat_ratio.plus(Fixed::one()).times(upstream_mach.squared()))),
    )
}

/// The value that `calc_density_ratio_from_upstream_mach` returns.
pub open spec fn calc_density_ratio_from_upstream_mach_spec(upstream_mach: Fixed, specific_heat_ratio: Fixed) -> Result<Fixed, IsentropicFlowError> {
    if !valid_specific_heat_ratio(specific_heat_ratio) {
        Err(IsentropicFlowError::InvalidSpecificHeatRatio)
    } else {
        checked(
            specific_heat_ratio.plus(Fixed::one()).times(upstream_mach.squared()).over(specific_heat_ratio.minus(Fixed::one()).times(upstream_mach.squared()).plus(Fixed::from_int(2))),
        )
    }
}

/// Density ratio across a normal shock,
/// `(g + 1) M^2 / ((g - 1) M^2 + 2)`. For a Mach number from one to 1024 and
/// a specific-heat ratio from 1.0625 to 3 ([`jump_is_owed`]) the result is a
/// number of at least one.
#[verifier::when_used_as_spec(calc_density_ratio_from_upstream_mach_spec)]
pub fn calc_density_ratio_from_upstream_mach(upstream_mach: Fixed, specific_heat_ratio: Fixed) -> (r: Result<Fixed, IsentropicFlowError>)
    ensures
        r == calc_density_ratio_from_upstream_mach_spec(upstream_mach, specific_heat_ratio),
        jump_is_owed(upstream_mach, specific_heat_ratio) ==> r is Ok && Fixed::one().le(r->Ok_0),
{
    proof {
        if jump_is_owed(upstream_mach, specific_heat_ratio) {
            lemma_density_rises(upstream_mach, specific_heat_ratio);
        }
    }
    if !valid_specific_heat_ratio(specific_heat_ratio) {
        return Err(IsentropicFlowError::InvalidSpecificHeatRatio);
    }
    checked(
        specific_heat_ratio.plus(Fixed::one()).times(upstream_mach.squared()).over(specific_heat_ratio.minus(Fixed::one()).times(upstream_mach.squared()).plus(Fixed::from_int(2))),
    )
}

/// The value that `calc_stagnation_pressure_ratio_from_upstream_mach` returns.
pub open spec fn calc_stagnation_pressure_ratio_from_upstream_mach_spec(
    upstream_mach: Fixed,
    specific_heat_ratio: Fixed,
) -> Result<Fixed, IsentropicFlowError> {
    let density = calc_density_ratio_from_upstream_mach_spec(upstream_mach, specific_heat_ratio);
    let pressure = calc_pressure_ratio_from_upstream_mach_spec(upstream_mach, specific_heat_ratio);
    if !valid_specific_heat_ratio(specific_heat_ratio) {
        Err(IsentropicFlowError::InvalidSpecificHeatRatio)
    } else if density is Err {
        Err(density->Err_0)
    } else if pressure is Err {
        Err(pressure->Err_0)
    } else {
        positive(stagnation_ratio_spec(density->Ok_0, pressure->Ok_0, specific_heat_ratio))
    }
}

/// Stagnation pressure ratio across a normal shock,
/// `rho^(g/(g - 1)) (1/p)^(1/(g - 1))` in the density ratio `rho` and the
/// pressure ratio `p`; see [`crate::isentropic::stagnation_ratio_spec`] for how
/// it is evaluated.
/// A ratio too small to be told from zero is a domain error.
#[verifier::when_used_as_spec(calc_stagnation_pressure_ratio_from_upstream_mach_spec)]
pub fn calc_stagnation_pressure_ratio_from_upstream_mach(
    upstream_mach: Fixed,
    specific_heat_ratio: Fixed,
) -> (r: Result<Fixed, IsentropicFlowError>)
    ensures
        r == calc_stagnation_pressure_ratio_from_upstream_mach_spec(
            upstream_mach,
            specific_heat_ratio,
        ),
        r matches Ok(ratio) ==> ratio.gt(Fixed::zero()),
{
    if !valid_specific_heat_ratio(specific_heat_ratio) {
        return Err(IsentropicFlowError::InvalidSpecificHeatRatio);
    }
    let density_ratio = calc_density_ratio_from_upstream_mach(upstream_mach, specific_heat_ratio)?;
    let pressure_ratio = calc_pressure_ratio_from_upstream_mach(upstream_mach, specific_heat_ratio)?;
    positive(stagnation_ratio(density_ratio, pressure_ratio, specific_heat_ratio))
}

/// The downstream Mach number that an upstream Mach number gives, less the
/// one asked for, as a function of the upstream Mach number.
pub open spec fn downstream_mach_residual(
    downstream_mach: Fixed,
    specific_heat_ratio: Fixed,
) -> spec_fn(Fixed) -> Fixed {
    |upstream_mach: Fixed|
        specific_heat_ratio.minus(Fixed::one()).times(upstream_mach.squared()).plus(Fixed::from_int(2)).over(
            specific_heat_ratio.twice().times(upstream_mach.squared()).minus(specific_heat_ratio.minus(Fixed::one())),
        ).sqrt().minus(downstream_mach)
}

/// Raw representation of the greatest upstream Mach number at which the
/// inverse relations are searched: 1024.
pub const SEARCH_TOP_RAW: i64 = 0x4_0000_0000_0000;

/// The value that `calc_upstream_mach_from_downstream_mach` returns.
pub open spec fn calc_upstream_mach_from_downstream_mach_spec(
    downstream_mach: Fixed,
    specific_heat_ratio: Fixed,
) -> Result<Fixed, IsentropicFlowError> {
    let g = downstream_mach_residual(downstream_mach, specific_heat_ratio);
    let top = Fixed { bits: SEARCH_TOP_RAW };
    if !valid_specific_heat_ratio(specific_heat_ratio) {
        Err(IsentropicFlowError::InvalidSpecificHeatRatio)
    } else if !(downstream_mach.gt(Fixed::zero()) && downstream_mach.le(Fixed::one())) {
        Err(IsentropicFlowError::InvalidMachNumber)
    } else if !g(Fixed::one()).defined() || !g(top).defined() {
        Err(IsentropicFlowError::DomainError)
    } else if g(Fixed::one()).le(Fixed::zero()) {
        Ok(Fixed::one())
    } else if g(top).ge(Fixed::zero()) {
        Err(IsentropicFlowError::DomainError)
    } else {
        bisection_spec(g, Fixed::one(), top, None, None)
    }
}

/// What the inversion of the downstream Mach number returns. It fails for
/// want of iterations on no input. A Mach number that it returns lies between
/// one and 1024; unless it is Mach one, the residual there, or half the
/// bracket the search ended on, is smaller than the default tolerance, and
/// the residual has strictly opposite signs at the two ends of that bracket.
pub proof fn lemma_upstream_mach_from_downstream_mach(
    downstream_mach: Fixed,
    specific_heat_ratio: Fixed,
)
    ensures
        ({
            let top = Fixed { bits: SEARCH_TOP_RAW };
            let g = downstream_mach_residual(downstream_mach, specific_heat_ratio);
            let found = calc_upstream_mach_from_downstream_mach_spec(
                downstream_mach,
                specific_heat_ratio,
            );
            let run = bisection_run(
                g,
                Fixed::one(),
                top,
                tolerance_or_default(None),
                iterations_or_default(None),
            );
            &&& found != Err::<Fixed, IsentropicFlowError>(IsentropicFlowError::NonConvergence)
            &&& found matches Ok(mach) ==> {
                &&& Fixed::one().le(mach)
                &&& mach.le(top)
                &&& mach != Fixed::one() ==> {
                    &&& g(mach).abs().lt(tolerance_or_default(None)) || run.upper.minus(
                        run.lower,
                    ).half().lt(tolerance_or_default(None))
                    &&& run.lower.le(mach)
                    &&& mach.le(run.upper)
                    &&& same_sign(g(run.lower), g(run.upper).neg())
                }
            }
        }),
{
    let top = Fixed { bits: SEARCH_TOP_RAW };
    let g = downstream_mach_residual(downstream_mach, specific_heat_ratio);
    let tol = tolerance_or_default(None);
    let cap = iterations_or_default(None);
    if g(Fixed::one()).defined() && g(top).defined() && !g(Fixed::one()).le(Fixed::zero()) && !g(
        top,
    ).ge(Fixed::zero()) {
        lemma2_to64();
        lemma_bisection_root_bracketed(g, Fixed::one(), top, tol, cap);
        lemma_bisection_decides_within(g, Fixed::one(), top, tol, cap, 64);
        lemma_bisection_keeps_sign_change(g, Fixed::one(), top, tol, cap);
    }
}

/// Upstream Mach number of the normal shock with a given downstream Mach
/// number in (0, 1]: bisection on the downstream Mach number between Mach
/// one and Mach 1024, with the default tolerance and cap.
///
/// A downstream Mach number of one gives Mach one. One so low that no
/// upstream Mach number up to 1024 gives it is a domain error. For a
/// specific-heat ratio from 1.0625 to 3 that is the only failure: an
/// upstream Mach number is returned exactly for the downstream Mach numbers
/// above the one behind a shock at Mach 1024. See
/// [`lemma_upstream_mach_from_downstream_mach`] for what holds of the result.
#[verifier::when_used_as_spec(calc_upstream_mach_from_downstream_mach_spec)]
pub fn calc_upstream_mach_from_downstream_mach(
    downstream_mach: Fixed,
    specific_heat_ratio: Fixed,
) -> (r: Result<Fixed, IsentropicFlowError>)
    ensures
        r == calc_upstream_mach_from_downstream_mach_spec(downstream_mach, specific_heat_ratio),
        r != Err::<Fixed, IsentropicFlowError>(IsentropicFlowError::NonConvergence),
        ratio_in_range(specific_heat_ratio) && downstream_mach.gt(Fixed::zero())
            && downstream_mach.le(Fixed::one()) ==> (r is Ok <==> (
        calc_downstream_mach_from_upstream_mach_spec(Fixed::one(), specific_heat_ratio)->Ok_0).le(
            downstream_mach,
        ) || (calc_downstream_mach_from_upstream_mach_spec(
            Fixed { bits: SEARCH_TOP_RAW },
            specific_heat_ratio,
        )->Ok_0).lt(downstream_mach)),
{
    proof {
        if ratio_in_range(specific_heat_ratio) && downstream_mach.gt(Fixed::zero())
            && downstream_mach.le(Fixed::one()) {
            lemma_downstream_mach_inversion(downstream_mach, specific_heat_ratio);
        }
    }
    proof {
        lemma_upstream_mach_from_downstream_mach(downstream_mach, specific_heat_ratio);
    }
    if !valid_specific_heat_ratio(specific_heat_ratio) {
        return Err(IsentropicFlowError::InvalidSpecificHeatRatio);
    }
    if !(downstream_mach.gt(Fixed::zero()) && downstream_mach.le(Fixed::one())) {
        return Err(IsentropicFlowError::InvalidMachNumber);
    }
    let f = |upstream_mach: Fixed| -> (y: Fixed)
        ensures
            y == downstream_mach_residual(downstream_mach, specific_heat_ratio)(upstream_mach),
        {
            specific_heat_ratio.minus(Fixed::one()).times(upstream_mach.squared()).plus(Fixed::from_int(2)).over(
                specific_heat_ratio.twice().times(upstream_mach.squared()).minus(specific_heat_ratio.minus(Fixed::one())),
            ).sqrt().minus(downstream_mach)
        };
    assert(computes(&f, downstream_mach_residual(downstream_mach, specific_heat_ratio)));
    let top = Fixed { bits: SEARCH_TOP_RAW };
    let at_one = f(Fixed::one());
    let at_top = f(top);
    if !at_one.is_defined() || !at_top.is_defined() {
        return Err(IsentropicFlowError::DomainError);
    }
    if at_one.le(Fixed::zero()) {
        return Ok(Fixed::one());
    }
    if at_top.ge(Fixed::zero()) {
        return Err(IsentropicFlowError::DomainError);
    }
    bisection(&f, Fixed::one(), top, None, None)
}

/// The value that `calc_upstream_mach_from_pressure_ratio` returns.
pub open spec fn calc_upstream_mach_from_pressure_ratio_spec(pressure_ratio: Fixed, specific_heat_ratio: Fixed) -> Result<Fixed, IsentropicFlowError> {
    if !valid_specific_heat_ratio(specific_heat_ratio) {
        Err(IsentropicFlowError::InvalidSpecificHeatRatio)
    } else {
        checked(
            pressure_ratio.minus(Fixed::one()).times(specific_heat_ratio.plus(Fixed::one())).over(specific_heat_ratio.twice()).plus(
                Fixed::one(),
            ).sqrt(),
        )
    }
}

/// Upstream Mach number of the normal shock with a given pressure ratio,
/// `sqrt((p - 1) (g + 1) / (2 g) + 1)`. For a pressure ratio from one to 2^20
/// and a specific-heat ratio from 1.0625 to 3 ([`pressure_inverse_is_owed`])
/// the result is a number of at least one.
#[verifier::when_used_as_spec(calc_upstream_mach_from_pressure_ratio_spec)]
pub fn calc_upstream_mach_from_pressure_ratio(pressure_ratio: Fixed, specific_heat_ratio: Fixed) -> (r: Result<Fixed, IsentropicFlowError>)
    ensures
        r == calc_upstream_mach_from_pressure_ratio_spec(pressure_ratio, specific_heat_ratio),
        pressure_inverse_is_owed(pressure_ratio, specific_heat_ratio) ==> r is Ok && Fixed::one().le(
            r->Ok_0,
        ),
{
    proof {
        if pressure_inverse_is_owed(pressure_ratio, specific_heat_ratio) {
            lemma_upstream_mach_from_pressure_ratio(pressure_ratio, specific_heat_ratio);
        }
    }
    if !valid_specific_heat_ratio(specific_heat_ratio) {
        return Err(IsentropicFlowError::InvalidSpecificHeatRatio);
    }
    checked(
        pressure_ratio.minus(Fixed::one()).times(specific_heat_ratio.plus(Fixed::one())).over(specific_heat_ratio.twice()).plus(
                Fixed::one(),
            ).sqrt(),
    )
}

/// The value that `calc_upstream_mach_from_density_ratio` returns.
pub open spec fn calc_upstream_mach_from_density_ratio_spec(density_ratio: Fixed, specific_heat_ratio: Fixed) -> Result<Fixed, IsentropicFlowError> {
    if !valid_specific_heat_ratio(specific_heat_ratio) {
        Err(IsentropicFlowError::InvalidSpecificHeatRatio)
    } else {
        checked(
            density_ratio.twice().over(
                specific_heat_ratio.plus(Fixed::one()).minus(density_ratio.times(specific_heat_ratio.minus(Fixed::one()))),
            ).sqrt(),
        )
    }
}

/// Upstream Mach number of the normal shock with a given density ratio,
/// `sqrt(2 rho / (g + 1 - rho (g - 1)))`.
#[verifier::when_used_as_spec(calc_upstream_mach_from_density_ratio_spec)]
pub fn calc_upstream_mach_from_density_ratio(density_ratio: Fixed, specific_heat_ratio: Fixed) -> (r: Result<Fixed, IsentropicFlowError>)
    ensures
        r == calc_upstream_mach_from_density_ratio_spec(density_ratio, specific_heat_ratio),
{
    if !valid_specific_heat_ratio(specific_heat_ratio) {
        return Err(IsentropicFlowError::InvalidSpecificHeatRatio);
    }
    checked(
        density_ratio.twice().over(
                specific_heat_ratio.plus(Fixed::one()).minus(density_ratio.times(specific_heat_ratio.minus(Fixed::one()))),
            ).sqrt(),
    )
}

/// Leading coefficient `2 g (g - 1)` of the quadratic that the temperature
/// ratio poses for the square of the Mach number.
pub open spec fn temperature_quadratic_a(specific_heat_ratio: Fixed) -> Fixed {
    specific_heat_ratio.twice().times(specific_heat_ratio.minus(Fixed::one()))
}

/// Middle coefficient `4 g - (g - 1)^2 - T (g + 1)^2` of the temperature
/// quadratic.
pub open spec fn temperature_quadratic_b(temperature_ratio: Fixed, specific_heat_ratio: Fixed) -> Fixed {
    Fixed::from_int(4).times(specific_heat_ratio).minus(
        specific_heat_ratio.minus(Fixed::one()).times(specific_heat_ratio.minus(Fixed::one())),
    ).minus(
        temperature_ratio.times(specific_heat_ratio.plus(Fixed::one())).times(
            specific_heat_ratio.plus(Fixed::one()),
        ),
    )
}

/// Last coefficient `-2 (g - 1)` of the temperature quadratic.
pub open spec fn temperature_quadratic_c(specific_heat_ratio: Fixed) -> Fixed {
    Fixed::from_int(-2i64).times(specific_heat_ratio.minus(Fixed::one()))
}

/// The square root `sqrt(b^2 - 4 a c)` of the discriminant. Where `b` is at
/// least one in magnitude it is formed as `|b| sqrt(1 - 4 a c / b^2)`, so that
/// the square of a large `b` is not formed.
pub open spec fn discriminant_root_spec(a: Fixed, b: Fixed, c: Fixed) -> Fixed {
    let four_a_c = Fixed::from_int(4).times(a).times(c);
    if b.abs().ge(Fixed::one()) {
        b.abs().times(Fixed::one().minus(four_a_c.over(b).over(b)).sqrt())
    } else {
        b.times(b).minus(four_a_c).sqrt()
    }
}

#[verifier::when_used_as_spec(discriminant_root_spec)]
fn discriminant_root(a: Fixed, b: Fixed, c: Fixed) -> (r: Fixed)
    ensures
        r == discriminant_root_spec(a, b, c),
{
    let four_a_c = Fixed::from_int(4).times(a).times(c);
    if b.abs().ge(Fixed::one()) {
        b.abs().times(Fixed::one().minus(four_a_c.over(b).over(b)).sqrt())
    } else {
        b.times(b).minus(four_a_c).sqrt()
    }
}

/// The value that `calc_upstream_mach_from_temperature_ratio` returns.
pub open spec fn calc_upstream_mach_from_temperature_ratio_spec(
    temperature_ratio: Fixed,
    specific_heat_ratio: Fixed,
) -> Result<Fixed, IsentropicFlowError> {
    let a = temperature_quadratic_a(specific_heat_ratio);
    let b = temperature_quadratic_b(temperature_ratio, specific_heat_ratio);
    let c = temperature_quadratic_c(specific_heat_ratio);
    if !valid_specific_heat_ratio(specific_heat_ratio) {
        Err(IsentropicFlowError::InvalidSpecificHeatRatio)
    } else {
        checked(b.neg().plus(discriminant_root_spec(a, b, c)).over(a.twice()).sqrt())
    }
}

/// Upstream Mach number of the normal shock with a given temperature ratio.
/// The square of the Mach number solves the quadratic with the coefficients
/// [`temperature_quadratic_a`], [`temperature_quadratic_b`] and
/// [`temperature_quadratic_c`]; the Mach number is
/// `sqrt((-b + sqrt(b^2 - 4 a c)) / (2 a))`. A negative discriminant or a
/// negative square is a domain error.
#[verifier::when_used_as_spec(calc_upstream_mach_from_temperature_ratio_spec)]
pub fn calc_upstream_mach_from_temperature_ratio(
    temperature_ratio: Fixed,
    specific_heat_ratio: Fixed,
) -> (r: Result<Fixed, IsentropicFlowError>)
    ensures
        r == calc_upstream_mach_from_temperature_ratio_spec(temperature_ratio, specific_heat_ratio),
{
    if !valid_specific_heat_ratio(specific_heat_ratio) {
        return Err(IsentropicFlowError::InvalidSpecificHeatRatio);
    }
    let a = specific_heat_ratio.twice().times(specific_heat_ratio.minus(Fixed::one()));
    let b = Fixed::from_int(4).times(specific_heat_ratio).minus(
        specific_heat_ratio.minus(Fixed::one()).times(specific_heat_ratio.minus(Fixed::one())),
    ).minus(
        temperature_ratio.times(specific_heat_ratio.plus(Fixed::one())).times(
            specific_heat_ratio.plus(Fixed::one()),
        ),
    );
    let c = Fixed::from_int(-2i64).times(specific_heat_ratio.minus(Fixed::one()));
    checked(b.neg().plus(discriminant_root(a, b, c)).over(a.twice()).sqrt())
}

/// Density ratio of a normal shock as a function of the upstream Mach number,
/// `(g + 1) M^2 / ((g - 1) M^2 + 2)`, unchecked.
pub open spec fn stagnation_alpha_spec(upstream_mach: Fixed, specific_heat_ratio: Fixed) -> Fixed {
    specific_heat_ratio.plus(Fixed::one()).times(upstream_mach.squared()).over(specific_heat_ratio.minus(Fixed::one()).times(upstream_mach.squared()).plus(Fixed::from_int(2)))
}

#[verifier::when_used_as_spec(stagnation_alpha_spec)]
fn stagnation_alpha(upstream_mach: Fixed, specific_heat_ratio: Fixed) -> (r: Fixed)
    ensures
        r == stagnation_alpha_spec(upstream_mach, specific_heat_ratio),
{
    specific_heat_ratio.plus(Fixed::one()).times(upstream_mach.squared()).over(specific_heat_ratio.minus(Fixed::one()).times(upstream_mach.squared()).plus(Fixed::from_int(2)))
}

/// Inverse pressure ratio of a normal shock as a function of the upstream
/// Mach number, `(g + 1) / (2 g M^2 - (g - 1))`, unchecked.
pub open spec fn stagnation_beta_spec(upstream_mach: Fixed, specific_heat_ratio: Fixed) -> Fixed {
    specific_heat_ratio.plus(Fixed::one()).over(specific_heat_ratio.twice().times(upstream_mach.squared()).minus(specific_heat_ratio.minus(Fixed::one())))
}

#[verifier::when_used_as_spec(stagnation_beta_spec)]
fn stagnation_beta(upstream_mach: Fixed, specific_heat_ratio: Fixed) -> (r: Fixed)
    ensures
        r == stagnation_beta_spec(upstream_mach, specific_heat_ratio),
{
    specific_heat_ratio.plus(Fixed::one()).over(specific_heat_ratio.twice().times(upstream_mach.squared()).minus(specific_heat_ratio.minus(Fixed::one())))
}

/// `alpha^(g/(g - 1)) beta^(1/(g - 1))` less the stagnation pressure ratio
/// asked for, with `alpha` and `beta` as in [`stagnation_alpha_spec`] and
/// [`stagnation_beta_spec`].
pub open spec fn stagnation_residual_spec(
    upstream_mach: Fixed,
    specific_heat_ratio: Fixed,
    stagnation_pressure_ratio: Fixed,
) -> Fixed {
    let g_minus_one = specific_heat_ratio.minus(Fixed::one());
    stagnation_alpha_spec(upstream_mach, specific_heat_ratio).powf(
        specific_heat_ratio.over(g_minus_one),
    ).times(
        stagnation_beta_spec(upstream_mach, specific_heat_ratio).powf(Fixed::one().over(g_minus_one)),
    ).minus(stagnation_pressure_ratio)
}

#[verifier::when_used_as_spec(stagnation_residual_spec)]
fn stagnation_residual(
    upstream_mach: Fixed,
    specific_heat_ratio: Fixed,
    stagnation_pressure_ratio: Fixed,
) -> (r: Fixed)
    ensures
        r == stagnation_residual_spec(upstream_mach, specific_heat_ratio, stagnation_pressure_ratio),
{
    let g_minus_one = specific_heat_ratio.minus(Fixed::one());
    stagnation_alpha(upstream_mach, specific_heat_ratio).powf(specific_heat_ratio.over(g_minus_one)).times(
        stagnation_beta(upstream_mach, specific_heat_ratio).powf(Fixed::one().over(g_minus_one)),
    ).minus(stagnation_pressure_ratio)
}

/// Derivative of [`stagnation_residual_spec`] in the upstream Mach number.
/// With `alpha' = (2/M - 2 M (g - 1) / ((g - 1) M^2 + 2)) alpha` and
/// `beta' = -4 g M beta / (2 g M^2 - (g - 1))` it is
/// `g/(g - 1) alpha^(1/(g - 1)) alpha' beta^(1/(g - 1))
///  + alpha^(g/(g - 1)) / (g - 1) beta^((2 - g)/(g - 1)) beta'`.
pub open spec fn stagnation_slope_spec(upstream_mach: Fixed, specific_heat_ratio: Fixed) -> Fixed {
    let g_minus_one = specific_heat_ratio.minus(Fixed::one());
    let alpha = stagnation_alpha_spec(upstream_mach, specific_heat_ratio);
    let beta = stagnation_beta_spec(upstream_mach, specific_heat_ratio);
    let alpha_derivative = Fixed::from_int(2).over(upstream_mach).minus(
        upstream_mach.twice().times(g_minus_one).over(
            g_minus_one.times(upstream_mach.squared()).plus(Fixed::from_int(2)),
        ),
    ).times(alpha);
    let beta_derivative = Fixed::from_int(-4i64).times(specific_heat_ratio).times(upstream_mach).times(
        beta,
    ).over(specific_heat_ratio.twice().times(upstream_mach.squared()).minus(g_minus_one));
    specific_heat_ratio.over(g_minus_one).times(alpha.powf(Fixed::one().over(g_minus_one))).times(
        alpha_derivative,
    ).times(beta.powf(Fixed::one().over(g_minus_one))).plus(
        alpha.powf(specific_heat_ratio.over(g_minus_one)).over(g_minus_one).times(
            beta.powf(Fixed::from_int(2).minus(specific_heat_ratio).over(g_minus_one)),
        ).times(beta_derivative),
    )
}

#[verifier::when_used_as_spec(stagnation_slope_spec)]
fn stagnation_slope(upstream_mach: Fixed, specific_heat_ratio: Fixed) -> (r: Fixed)
    ensures
        r == stagnation_slope_spec(upstream_mach, specific_heat_ratio),
{
    let g_minus_one = specific_heat_ratio.minus(Fixed::one());
    let alpha = stagnation_alpha(upstream_mach, specific_heat_ratio);
    let beta = stagnation_beta(upstream_mach, specific_heat_ratio);
    let alpha_derivative = Fixed::from_int(2).over(upstream_mach).minus(
        upstream_mach.twice().times(g_minus_one).over(
            g_minus_one.times(upstream_mach.squared()).plus(Fixed::from_int(2)),
        ),
    ).times(alpha);
    let beta_derivative = Fixed::from_int(-4i64).times(specific_heat_ratio).times(upstream_mach).times(
        beta,
    ).over(specific_heat_ratio.twice().times(upstream_mach.squared()).minus(g_minus_one));
    specific_heat_ratio.over(g_minus_one).times(alpha.powf(Fixed::one().over(g_minus_one))).times(
        alpha_derivative,
    ).times(beta.powf(Fixed::one().over(g_minus_one))).plus(
        alpha.powf(specific_heat_ratio.over(g_minus_one)).over(g_minus_one).times(
            beta.powf(Fixed::from_int(2).minus(specific_heat_ratio).over(g_minus_one)),
        ).times(beta_derivative),
    )
}

/// The residual of the stagnation-pressure inversion as a function of the
/// upstream Mach number.
pub open spec fn stagnation_residual_function(
    specific_heat_ratio: Fixed,
    stagnation_pressure_ratio: Fixed,
) -> spec_fn(Fixed) -> Fixed {
    |upstream_mach: Fixed|
        stagnation_residual_spec(upstream_mach, specific_heat_ratio, stagnation_pressure_ratio)
}

/// The derivative of the stagnation-pressure residual as a function of the
/// upstream Mach number.
pub open spec fn stagnation_slope_function(specific_heat_ratio: Fixed) -> spec_fn(Fixed) -> Fixed {
    |upstream_mach: Fixed| stagnation_slope_spec(upstream_mach, specific_heat_ratio)
}

/// The logarithm of the stagnation pressure ratio at `upstream_mach`, less
/// the logarithm of the ratio asked for:
/// `g/(g - 1) (ln((g + 1) M^2) - ln((g - 1) M^2 + 2))
///  + 1/(g - 1) (ln(g + 1) - ln(2 g M^2 - (g - 1))) - ln(ratio)`.
/// In logarithms the small second factor of the ratio keeps its digits.
pub open spec fn stagnation_log_residual_spec(
    upstream_mach: Fixed,
    specific_heat_ratio: Fixed,
    stagnation_pressure_ratio: Fixed,
) -> Fixed {
    let g_minus_one = specific_heat_ratio.minus(Fixed::one());
    let g_plus_one = specific_heat_ratio.plus(Fixed::one());
    let mach_squared = upstream_mach.squared();
    specific_heat_ratio.over(g_minus_one).times(
        g_plus_one.times(mach_squared).ln().minus(
            g_minus_one.times(mach_squared).plus(Fixed::from_int(2)).ln(),
        ),
    ).plus(
        Fixed::one().over(g_minus_one).times(
            g_plus_one.ln().minus(
                specific_heat_ratio.twice().times(mach_squared).minus(g_minus_one).ln(),
            ),
        ),
    ).minus(stagnation_pressure_ratio.ln())
}

#[verifier::when_used_as_spec(stagnation_log_residual_spec)]
fn stagnation_log_residual(
    upstream_mach: Fixed,
    specific_heat_ratio: Fixed,
    stagnation_pressure_ratio: Fixed,
) -> (r: Fixed)
    ensures
        r == stagnation_log_residual_spec(
            upstream_mach,
            specific_heat_ratio,
            stagnation_pressure_ratio,
        ),
{
    let g_minus_one = specific_heat_ratio.minus(Fixed::one());
    let g_plus_one = specific_heat_ratio.plus(Fixed::one());
    let mach_squared = upstream_mach.squared();
    specific_heat_ratio.over(g_minus_one).times(
        g_plus_one.times(mach_squared).ln().minus(
            g_minus_one.times(mach_squared).plus(Fixed::from_int(2)).ln(),
        ),
    ).plus(
        Fixed::one().over(g_minus_one).times(
            g_plus_one.ln().minus(
                specific_heat_ratio.twice().times(mach_squared).minus(g_minus_one).ln(),
            ),
        ),
    ).minus(stagnation_pressure_ratio.ln())
}

/// The logarithmic residual as a function of the upstream Mach number.
pub open spec fn stagnation_log_residual_function(
    specific_heat_ratio: Fixed,
    stagnation_pressure_ratio: Fixed,
) -> spec_fn(Fixed) -> Fixed {
    |upstream_mach: Fixed|
        stagnation_log_residual_spec(upstream_mach, specific_heat_ratio, stagnation_pressure_ratio)
}

/// The search that finishes the inversion where Newton-Raphson did not
/// succeed: bisection on the logarithmic residual between Mach one and Mach
/// 1024, with the default tolerance and cap.
///
/// The residual has to be a number at both ends. A residual that is not
/// positive at Mach one means a ratio of one, and the answer is Mach one. A
/// residual that is not negative at Mach 1024 means a ratio that no Mach
/// number up to there reaches, a domain error.
pub open spec fn stagnation_search_spec(
    stagnation_pressure_ratio: Fixed,
    specific_heat_ratio: Fixed,
) -> Result<Fixed, IsentropicFlowError> {
    let top = Fixed { bits: SEARCH_TOP_RAW };
    let at_one = stagnation_log_residual_spec(
        Fixed::one(),
        specific_heat_ratio,
        stagnation_pressure_ratio,
    );
    let at_top = stagnation_log_residual_spec(top, specific_heat_ratio, stagnation_pressure_ratio);
    if !at_one.defined() || !at_top.defined() {
        Err(IsentropicFlowError::DomainError)
    } else if at_one.le(Fixed::zero()) {
        Ok(Fixed::one())
    } else if at_top.ge(Fixed::zero()) {
        Err(IsentropicFlowError::DomainError)
    } else {
        bisection_spec(
            stagnation_log_residual_function(specific_heat_ratio, stagnation_pressure_ratio),
            Fixed::one(),
            top,
            None,
            None,
        )
    }
}

/// What the search returns. It fails with a domain error only, never for
/// want of iterations. A Mach number
/// that it returns lies between one and 1024; the logarithmic residual
/// there, or half the bracket the search ended on, is smaller than the
/// default tolerance; and the residual has strictly opposite signs at the two
/// ends of that bracket, so that a change of sign lies within the tolerance
/// of the Mach number returned.
pub proof fn lemma_stagnation_search(stagnation_pressure_ratio: Fixed, specific_heat_ratio: Fixed)
    ensures
        ({
            let top = Fixed { bits: SEARCH_TOP_RAW };
            let g = stagnation_log_residual_function(specific_heat_ratio, stagnation_pressure_ratio);
            let found = stagnation_search_spec(stagnation_pressure_ratio, specific_heat_ratio);
            let run = bisection_run(
                g,
                Fixed::one(),
                top,
                tolerance_or_default(None),
                iterations_or_default(None),
            );
            &&& found is Err ==> found->Err_0 == IsentropicFlowError::DomainError
            &&& found matches Ok(mach) ==> {
                &&& Fixed::one().le(mach)
                &&& mach.le(top)
                &&& mach != Fixed::one() ==> {
                    &&& g(mach).abs().lt(tolerance_or_default(None)) || run.upper.minus(
                        run.lower,
                    ).half().lt(tolerance_or_default(None))
                    &&& run.lower.le(mach)
                    &&& mach.le(run.upper)
                    &&& same_sign(g(run.lower), g(run.upper).neg())
                }
            }
        }),
{
    let top = Fixed { bits: SEARCH_TOP_RAW };
    let g = stagnation_log_residual_function(specific_heat_ratio, stagnation_pressure_ratio);
    let tol = tolerance_or_default(None);
    let cap = iterations_or_default(None);
    let at_one = g(Fixed::one());
    let at_top = g(top);
    if at_one.defined() && at_top.defined() && !at_one.le(Fixed::zero()) && !at_top.ge(
        Fixed::zero(),
    ) {
        lemma2_to64();
        lemma_bisection_root_bracketed(g, Fixed::one(), top, tol, cap);
        lemma_bisection_decides_within(g, Fixed::one(), top, tol, cap, 64);
        lemma_bisection_keeps_sign_change(g, Fixed::one(), top, tol, cap);
    }
}

/// Raw representation of the greatest logarithmic residual with which a root
/// of Newton-Raphson is accepted: 2^-26, about fifteen parts in a thousand
/// million of the ratio.
pub const STAGNATION_RESIDUAL_BOUND_RAW: i64 = 0x4000;

/// Whether `upstream_mach` lies between Mach one and Mach 1024 and the
/// logarithmic residual there is within [`STAGNATION_RESIDUAL_BOUND_RAW`] of
/// zero.
pub open spec fn stagnation_root_accepted(
    upstream_mach: Fixed,
    specific_heat_ratio: Fixed,
    stagnation_pressure_ratio: Fixed,
) -> bool {
    &&& Fixed::one().le(upstream_mach)
    &&& upstream_mach.le(Fixed { bits: SEARCH_TOP_RAW })
    &&& stagnation_log_residual_spec(
        upstream_mach,
        specific_heat_ratio,
        stagnation_pressure_ratio,
    ).abs().le(Fixed { bits: STAGNATION_RESIDUAL_BOUND_RAW })
}

/// The value that `calc_upstream_mach_from_stagnation_pressure_ratio` returns.
pub open spec fn calc_upstream_mach_from_stagnation_pressure_ratio_spec(
    stagnation_pressure_ratio: Fixed,
    specific_heat_ratio: Fixed,
) -> Result<Fixed, IsentropicFlowError> {
    if !valid_specific_heat_ratio(specific_heat_ratio) {
        Err(IsentropicFlowError::InvalidSpecificHeatRatio)
    } else if stagnation_pressure_ratio.le(Fixed::zero()) || stagnation_pressure_ratio.gt(
        Fixed::one(),
    ) {
        Err(IsentropicFlowError::InvalidPressureRatio)
    } else {
        match newton_raphson_spec(
            stagnation_residual_function(specific_heat_ratio, stagnation_pressure_ratio),
            stagnation_slope_function(specific_heat_ratio),
            Fixed::from_int(2),
            None,
            None,
        ) {
            Ok(mach) => if stagnation_root_accepted(
                mach,
                specific_heat_ratio,
                stagnation_pressure_ratio,
            ) {
                Ok(mach)
            } else {
                stagnation_search_spec(stagnation_pressure_ratio, specific_heat_ratio)
            },
            Err(_) => stagnation_search_spec(stagnation_pressure_ratio, specific_heat_ratio),
        }
    }
}

/// Upstream Mach number of the normal shock with a given stagnation pressure
/// ratio in (0, 1].
///
/// Newton-Raphson from Mach two on [`stagnation_residual_spec`], with the
/// default tolerance and cap, comes first, and its root is accepted where it
/// lies between Mach one and Mach 1024 and the logarithm of the ratio it
/// gives is within 2^-26 of the logarithm of the ratio asked for. Behind strong shocks that residual cannot be told from
/// zero over a stretch of Mach numbers wider than the tolerance, and
/// Newton-Raphson does not settle; the inversion is then finished by
/// [`stagnation_search_spec`], a bisection on the logarithm of the ratio.
/// A Mach number that is returned therefore has a logarithmic residual within
/// 2^-26, or is Mach one for a ratio of one, or lies in a bracket narrower
/// than twice the tolerance across which the logarithmic residual changes
/// sign. For a specific-heat ratio above one and a ratio in (0, 1] the
/// call never fails for want of iterations or for a singular derivative: it
/// returns a Mach number, or a domain error where the logarithmic residual
/// is undefined or the ratio is not reached up to Mach 1024. For a
/// specific-heat ratio between 1.125 and 1.75 and a ratio of at least 2^-16
/// ([`inversion_is_owed`]) it returns a Mach number. A Mach number that is
/// returned lies between Mach one and Mach 1024. See
/// [`lemma_stagnation_search`] for what holds of a Mach number that the
/// search returns.
#[verifier::when_used_as_spec(calc_upstream_mach_from_stagnation_pressure_ratio_spec)]
pub fn calc_upstream_mach_from_stagnation_pressure_ratio(
    stagnation_pressure_ratio: Fixed,
    specific_heat_ratio: Fixed,
) -> (r: Result<Fixed, IsentropicFlowError>)
    ensures
        r == calc_upstream_mach_from_stagnation_pressure_ratio_spec(
            stagnation_pressure_ratio,
            specific_heat_ratio,
        ),
        r is Err ==> r->Err_0 == IsentropicFlowError::DomainError || !(valid_specific_heat_ratio(
            specific_heat_ratio,
        ) && stagnation_pressure_ratio.gt(Fixed::zero()) && stagnation_pressure_ratio.le(
            Fixed::one(),
        )),
        r matches Ok(mach) ==> stagnation_root_accepted(
            mach,
            specific_heat_ratio,
            stagnation_pressure_ratio,
        ) || r == stagnation_search_spec(stagnation_pressure_ratio, specific_heat_ratio),
        r matches Ok(mach) ==> Fixed::one().le(mach) && mach.le(Fixed { bits: SEARCH_TOP_RAW }),
        r matches Ok(mach) ==> {
            let g = stagnation_log_residual_function(specific_heat_ratio, stagnation_pressure_ratio);
            let run = bisection_run(
                g,
                Fixed::one(),
                Fixed { bits: SEARCH_TOP_RAW },
                tolerance_or_default(None),
                iterations_or_default(None),
            );
            ||| g(mach).abs().le(Fixed { bits: STAGNATION_RESIDUAL_BOUND_RAW })
            ||| mach == Fixed::one()
            ||| {
                &&& run.lower.le(mach)
                &&& mach.le(run.upper)
                &&& run.upper.minus(run.lower).half().lt(tolerance_or_default(None))
                &&& same_sign(g(run.lower), g(run.upper).neg())
            }
        },
        inversion_is_owed(stagnation_pressure_ratio, specific_heat_ratio) ==> r is Ok,
{
    proof {
        lemma_stagnation_search(stagnation_pressure_ratio, specific_heat_ratio);
        if inversion_is_owed(stagnation_pressure_ratio, specific_heat_ratio) {
            lemma_inversion_succeeds(stagnation_pressure_ratio, specific_heat_ratio);
        }
    }
    if !valid_specific_heat_ratio(specific_heat_ratio) {
        return Err(IsentropicFlowError::InvalidSpecificHeatRatio);
    }
    if stagnation_pressure_ratio.le(Fixed::zero()) || stagnation_pressure_ratio.gt(Fixed::one()) {
        return Err(IsentropicFlowError::InvalidPressureRatio);
    }
    let f = |upstream_mach: Fixed| -> (y: Fixed)
        ensures
            y == stagnation_residual_spec(
                upstream_mach,
                specific_heat_ratio,
                stagnation_pressure_ratio,
            ),
        { stagnation_residual(upstream_mach, specific_heat_ratio, stagnation_pressure_ratio) };
    let df = |upstream_mach: Fixed| -> (y: Fixed)
        ensures
            y == stagnation_slope_spec(upstream_mach, specific_heat_ratio),
        { stagnation_slope(upstream_mach, specific_heat_ratio) };
    assert(computes(
        &f,
        stagnation_residual_function(specific_heat_ratio, stagnation_pressure_ratio),
    ));
    assert(computes(&df, stagnation_slope_function(specific_heat_ratio)));
    match newton_raphson(&f, &df, Fixed::from_int(2), None, None) {
        Ok(mach) => {
            let residual = stagnation_log_residual(
                mach,
                specific_heat_ratio,
                stagnation_pressure_ratio,
            );
            if Fixed::one().le(mach) && mach.le(Fixed { bits: SEARCH_TOP_RAW }) && residual.abs().le(
                Fixed { bits: STAGNATION_RESIDUAL_BOUND_RAW },
            ) {
                Ok(mach)
            } else {
                stagnation_search(stagnation_pressure_ratio, specific_heat_ratio)
            }
        },
        Err(_) => stagnation_search(stagnation_pressure_ratio, specific_heat_ratio),
    }
}

/// Evaluates [`stagnation_search_spec`].
fn stagnation_search(stagnation_pressure_ratio: Fixed, specific_heat_ratio: Fixed) -> (r: Result<
    Fixed,
    IsentropicFlowError,
>)
    ensures
        r == stagnation_search_spec(stagnation_pressure_ratio, specific_heat_ratio),
        r is Err ==> r->Err_0 == IsentropicFlowError::DomainError || !(valid_specific_heat_ratio(
            specific_heat_ratio,
        ) && stagnation_pressure_ratio.gt(Fixed::zero()) && stagnation_pressure_ratio.le(
            Fixed::one(),
        )),
{
    proof {
        lemma_stagnation_search(stagnation_pressure_ratio, specific_heat_ratio);
    }
    let top = Fixed { bits: SEARCH_TOP_RAW };
    let at_one = stagnation_log_residual(
        Fixed::one(),
        specific_heat_ratio,
        stagnation_pressure_ratio,
    );
    let at_top = stagnation_log_residual(top, specific_heat_ratio, stagnation_pressure_ratio);
    if !at_one.is_defined() || !at_top.is_defined() {
        return Err(IsentropicFlowError::DomainError);
    }
    if at_one.le(Fixed::zero()) {
        return Ok(Fixed::one());
    }
    if at_top.ge(Fixed::zero()) {
        return Err(IsentropicFlowError::DomainError);
    }
    let f = |upstream_mach: Fixed| -> (y: Fixed)
        ensures
            y == stagnation_log_residual_spec(
                upstream_mach,
                specific_heat_ratio,
                stagnation_pressure_ratio,
            ),
        { stagnation_log_residual(upstream_mach, specific_heat_ratio, stagnation_pressure_ratio) };
    assert(computes(
        &f,
        stagnation_log_residual_function(specific_heat_ratio, stagnation_pressure_ratio),
    ));
    bisection(&f, Fixed::one(), top, None, None)
}

/// The quantities of a normal shock.
pub struct NormalShockValues {
    /// Mach number ahead of the shock.
    pub upstream_mach: Fixed,
    /// Mach number behind the shock.
    pub downstream_mach: Fixed,
    /// Static temperature behind over ahead.
    pub temperature_ratio: Fixed,
    /// Static pressure behind over ahead.
    pub pressure_ratio: Fixed,
    /// Density behind over ahead.
    pub density_ratio: Fixed,
    /// Stagnation pressure behind over ahead.
    pub stagnation_pressure_ratio: Fixed,
}

/// A normal shock: an upstream Mach number with every quantity that follows
/// from it. It is built whole by its constructors.
#[derive(Clone, Copy, Debug)]
pub struct NormalShock {
    upstream_mach: Fixed,
    downstream_mach: Fixed,
    temperature_ratio: Fixed,
    pressure_ratio: Fixed,
    density_ratio: Fixed,
    stagnation_pressure_ratio: Fixed,
}

impl View for NormalShock {
    type V = NormalShockValues;

    closed spec fn view(&self) -> NormalShockValues {
        NormalShockValues {
            upstream_mach: self.upstream_mach,
            downstream_mach: self.downstream_mach,
            temperature_ratio: self.temperature_ratio,
            pressure_ratio: self.pressure_ratio,
            density_ratio: self.density_ratio,
            stagnation_pressure_ratio: self.stagnation_pressure_ratio,
        }
    }
}

/// A result with the value it holds taken by its view.
pub open spec fn shock_values(r: Result<NormalShock, IsentropicFlowError>) -> Result<
    NormalShockValues,
    IsentropicFlowError,
> {
    match r {
        Ok(v) => Ok(v@),
        Err(e) => Err(e),
    }
}

/// The upstream Mach number of the shock that has the quantity `from`.
pub open spec fn upstream_mach_of_input_spec(from: Input, specific_heat_ratio: Fixed) -> Result<
    Fixed,
    IsentropicFlowError,
> {
    match from {
        Input::UpstreamMachNumber(value) => Ok(value),
        Input::DownstreamMachNumber(value) => calc_upstream_mach_from_downstream_mach_spec(
            value,
            specific_heat_ratio,
        ),
        Input::TemperatureRatio(value) => calc_upstream_mach_from_temperature_ratio_spec(
            value,
            specific_heat_ratio,
        ),
        Input::PressureRatio(value) => calc_upstream_mach_from_pressure_ratio_spec(
            value,
            specific_heat_ratio,
        ),
        Input::DensityRatio(value) => calc_upstream_mach_from_density_ratio_spec(
            value,
            specific_heat_ratio,
        ),
        Input::StagnationPressureRatio(value) =>
            calc_upstream_mach_from_stagnation_pressure_ratio_spec(value, specific_heat_ratio),
    }
}

impl NormalShockValues {
    /// What holds of every normal shock that is built: each quantity is a
    /// number.
    pub open spec fn well_formed(self) -> bool {
        &&& self.upstream_mach.defined()
        &&& self.downstream_mach.defined()
        &&& self.temperature_ratio.defined()
        &&& self.pressure_ratio.defined()
        &&& self.density_ratio.defined()
        &&& self.stagnation_pressure_ratio.defined()
    }
}

impl NormalShock {
    /// The value that `from_upstream_mach` returns.
    pub open spec fn from_upstream_mach_spec(
        upstream_mach: Fixed,
        specific_heat_ratio: Option<Fixed>,
    ) -> Result<NormalShockValues, IsentropicFlowError> {
        let g = specific_heat_ratio_or_default(specific_heat_ratio);
        let downstream = calc_downstream_mach_from_upstream_mach_spec(upstream_mach, g);
        let pressure = calc_pressure_ratio_from_upstream_mach_spec(upstream_mach, g);
        let temperature = calc_temperature_ratio_from_upstream_mach_spec(upstream_mach, g);
        let density = calc_density_ratio_from_upstream_mach_spec(upstream_mach, g);
        let stagnation = calc_stagnation_pressure_ratio_from_upstream_mach_spec(upstream_mach, g);
        if !valid_specific_heat_ratio(g) {
            Err(IsentropicFlowError::InvalidSpecificHeatRatio)
        } else if downstream is Err {
            Err(downstream->Err_0)
        } else if pressure is Err {
            Err(pressure->Err_0)
        } else if temperature is Err {
            Err(temperature->Err_0)
        } else if density is Err {
            Err(density->Err_0)
        } else if stagnation is Err {
            Err(stagnation->Err_0)
        } else {
            Ok(
                NormalShockValues {
                    upstream_mach,
                    downstream_mach: downstream->Ok_0,
                    temperature_ratio: temperature->Ok_0,
                    pressure_ratio: pressure->Ok_0,
                    density_ratio: density->Ok_0,
                    stagnation_pressure_ratio: stagnation->Ok_0,
                },
            )
        }
    }

    /// The normal shock at `upstream_mach`. The specific-heat ratio defaults
    /// to that of air. The first quantity that cannot be had decides the
    /// error.
    pub fn from_upstream_mach(upstream_mach: Fixed, specific_heat_ratio: Option<Fixed>) -> (r:
        Result<NormalShock, IsentropicFlowError>)
        ensures
            shock_values(r) == Self::from_upstream_mach_spec(upstream_mach, specific_heat_ratio),
            r matches Ok(shock) ==> shock@.well_formed(),
    {
        let specific_heat_ratio = match specific_heat_ratio {
            Some(g) => g,
            None => default_specific_heat_ratio(),
        };
        if !valid_specific_heat_ratio(specific_heat_ratio) {
            return Err(IsentropicFlowError::InvalidSpecificHeatRatio);
        }
        let downstream_mach = calc_downstream_mach_from_upstream_mach(
            upstream_mach,
            specific_heat_ratio,
        )?;
        let pressure_ratio = calc_pressure_ratio_from_upstream_mach(
            upstream_mach,
            specific_heat_ratio,
        )?;
        let temperature_ratio = calc_temperature_ratio_from_upstream_mach(
            upstream_mach,
            specific_heat_ratio,
        )?;
        let density_ratio = calc_density_ratio_from_upstream_mach(
            upstream_mach,
            specific_heat_ratio,
        )?;
        let stagnation_pressure_ratio = calc_stagnation_pressure_ratio_from_upstream_mach(
            upstream_mach,
            specific_heat_ratio,
        )?;
        Ok(
            NormalShock {
                upstream_mach,
                downstream_mach,
                temperature_ratio,
                pressure_ratio,
                density_ratio,
                stagnation_pressure_ratio,
            },
        )
    }

    /// The value that `new` returns.
    pub open spec fn new_spec(from: Input, specific_heat_ratio: Option<Fixed>) -> Result<
        NormalShockValues,
        IsentropicFlowError,
    > {
        let g = specific_heat_ratio_or_default(specific_heat_ratio);
        let upstream = upstream_mach_of_input_spec(from, g);
        if !valid_specific_heat_ratio(g) {
            Err(IsentropicFlowError::InvalidSpecificHeatRatio)
        } else if upstream is Err {
            Err(upstream->Err_0)
        } else {
            Self::from_upstream_mach_spec(upstream->Ok_0, Some(g))
        }
    }

    /// The normal shock that has the quantity `from`: the upstream Mach
    /// number is recovered from it and the shock built there. The
    /// specific-heat ratio defaults to that of air.
    pub fn new(from: Input, specific_heat_ratio: Option<Fixed>) -> (r: Result<
        NormalShock,
        IsentropicFlowError,
    >)
        ensures
            shock_values(r) == Self::new_spec(from, specific_heat_ratio),
            r matches Ok(shock) ==> shock@.well_formed(),
    {
        let specific_heat_ratio = match specific_heat_ratio {
            Some(g) => g,
            None => default_specific_heat_ratio(),
        };
        if !valid_specific_heat_ratio(specific_heat_ratio) {
            return Err(IsentropicFlowError::InvalidSpecificHeatRatio);
        }
        let upstream_mach = match from {
            Input::UpstreamMachNumber(value) => value,
            Input::DownstreamMachNumber(value) => calc_upstream_mach_from_downstream_mach(
                value,
                specific_heat_ratio,
            )?,
            Input::TemperatureRatio(value) => calc_upstream_mach_from_temperature_ratio(
                value,
                specific_heat_ratio,
            )?,
            Input::PressureRatio(value) => calc_upstream_mach_from_pressure_ratio(
                value,
                specific_heat_ratio,
            )?,
            Input::DensityRatio(value) => calc_upstream_mach_from_density_ratio(
                value,
                specific_heat_ratio,
            )?,
            Input::StagnationPressureRatio(value) =>
                calc_upstream_mach_from_stagnation_pressure_ratio(value, specific_heat_ratio)?,
        };
        NormalShock::from_upstream_mach(upstream_mach, Some(specific_heat_ratio))
    }

    /// The quantity that `output` names.
    pub open spec fn select(values: NormalShockValues, output: Output) -> Fixed {
        match output {
            Output::UpstreamMachNumber => values.upstream_mach,
            Output::DownstreamMachNumber => values.downstream_mach,
            Output::TemperatureRatio => values.temperature_ratio,
            Output::PressureRatio => values.pressure_ratio,
            Output::DensityRatio => values.density_ratio,
            Output::StagnationPressureRatio => values.stagnation_pressure_ratio,
        }
    }

    /// The quantity that `output` names.
    pub fn get(&self, output: Output) -> (v: Fixed)
        ensures
            v == Self::select(self@, output),
    {
        match output {
            Output::UpstreamMachNumber => self.upstream_mach,
            Output::DownstreamMachNumber => self.downstream_mach,
            Output::TemperatureRatio => self.temperature_ratio,
            Output::PressureRatio => self.pressure_ratio,
            Output::DensityRatio => self.density_ratio,
            Output::StagnationPressureRatio => self.stagnation_pressure_ratio,
        }
    }
}

/// The value that `calculate` returns.
pub open spec fn calculate_spec(input: Input, output: Output, specific_heat_ratio: Fixed) -> Result<
    Fixed,
    IsentropicFlowError,
> {
    if !valid_specific_heat_ratio(specific_heat_ratio) {
        Err(IsentropicFlowError::InvalidSpecificHeatRatio)
    } else {
        match NormalShock::new_spec(input, Some(specific_heat_ratio)) {
            Ok(values) => Ok(NormalShock::select(values, output)),
            Err(e) => Err(e),
        }
    }
}

/// One quantity of the normal shock that has the quantity `input`.
pub fn calculate(input: Input, output: Output, specific_heat_ratio: Fixed) -> (r: Result<
    Fixed,
    IsentropicFlowError,
>)
    ensures
        r == calculate_spec(input, output, specific_heat_ratio),
{
    if !valid_specific_heat_ratio(specific_heat_ratio) {
        return Err(IsentropicFlowError::InvalidSpecificHeatRatio);
    }
    let normal_shock = NormalShock::new(input, Some(specific_heat_ratio))?;
    Ok(normal_shock.get(output))
}

} // verus!
