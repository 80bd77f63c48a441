//! Oblique-shock relations for a calorically perfect gas.

use vstd::prelude::*;
use crate::fixed::Fixed;
use vstd::arithmetic::power2::lemma2_to64;
use crate::isentropic::{
    calc_mach_angle_from_mach, calc_mach_angle_from_mach_spec, checked, positive, stagnation_ratio,
    stagnation_ratio_spec, valid_specific_heat_ratio, IsentropicFlowError,
};
use crate::numerics::{
    bisection, bisection_run, bisection_spec, computes, iterations_or_default,
    lemma_bisection_decides_within, lemma_bisection_keeps_direction,
    lemma_bisection_root_bracketed, tolerance_or_default,
};

verus! {

/// One of the quantities a caller knows about an oblique shock.
#[derive(Clone, Copy, Debug)]
pub enum Input {
    UpstreamMach(Fixed),
    NormalUpstreamMach(Fixed),
    DeflectionAngle(Fixed),
    ShockAngle(Fixed),
}

/// The quantity a caller asks for.
#[derive(Clone, Copy, Debug)]
pub enum Output {
    DownstreamMach,
    DeflectionAngle,
    ShockAngle,
    PressureRatio,
    DensityRatio,
    TemperatureRatio,
    StagnationPressureRatio,
    NormalUpstreamMach,
    NormalDownstreamMach,
}

/// Square of the Mach number normal to the shock, `M^2 sin^2(beta)`.
pub open spec fn normal_mach_squared_spec(upstream_mach: Fixed, shock_angle: Fixed) -> Fixed {
    upstream_mach.squared().times(shock_angle.sin().squared())
}

#[verifier::when_used_as_spec(normal_mach_squared_spec)]
fn normal_mach_squared(upstream_mach: Fixed, shock_angle: Fixed) -> (r: Fixed)
    ensures
        r == normal_mach_squared_spec(upstream_mach, shock_angle),
{
    upstream_mach.squared().times(shock_angle.sin().squared())
}

/// The deflection angle behind a shock at `shock_angle`:
/// `atan(2 / tan(beta) (M^2 sin^2(beta) - 1) / (M^2 (g + cos(2 beta)) + 2))`.
/// The quotient by the tangent is two times the cosine over the sine, which
/// is zero at a quarter turn, where the tangent has no value.
pub open spec fn deflection_angle_spec(
    upstream_mach: Fixed,
    shock_angle: Fixed,
    specific_heat_ratio: Fixed,
) -> Fixed {
    Fixed::from_int(2).over_tan(shock_angle).times(
        normal_mach_squared_spec(upstream_mach, shock_angle).minus(Fixed::one()),
    ).over(
        upstream_mach.squared().times(specific_heat_ratio.plus(shock_angle.twice().cos())).plus(
            Fixed::from_int(2),
        ),
    ).atan()
}

#[verifier::when_used_as_spec(deflection_angle_spec)]
fn deflection_behind(upstream_mach: Fixed, shock_angle: Fixed, specific_heat_ratio: Fixed) -> (r:
    Fixed)
    ensures
        r == deflection_angle_spec(upstream_mach, shock_angle, specific_heat_ratio),
{
    Fixed::from_int(2).over_tan(shock_angle).times(
        normal_mach_squared(upstream_mach, shock_angle).minus(Fixed::one()),
    ).over(
        upstream_mach.squared().times(specific_heat_ratio.plus(shock_angle.twice().cos())).plus(
            Fixed::from_int(2),
        ),
    ).atan()
}

/// The value that `calc_deflection_angle` returns.
pub open spec fn calc_deflection_angle_spec(
    upstream_mach: Fixed,
    shock_angle: Fixed,
    specific_heat_ratio: Fixed,
) -> Result<Fixed, IsentropicFlowError> {
    checked(deflection_angle_spec(upstream_mach, shock_angle, specific_heat_ratio))
}

/// Flow deflection angle behind an oblique shock at `shock_angle`.
#[verifier::when_used_as_spec(calc_deflection_angle_spec)]
pub fn calc_deflection_angle(upstream_mach: Fixed, shock_angle: Fixed, specific_heat_ratio: Fixed) -> (r:
    Result<Fixed, IsentropicFlowError>)
    ensures
        r == calc_deflection_angle_spec(upstream_mach, shock_angle, specific_heat_ratio),
{
    checked(deflection_behind(upstream_mach, shock_angle, specific_heat_ratio))
}

/// The value that `calc_pressure_ratio` returns.
pub open spec fn calc_pressure_ratio_spec(
    upstream_mach: Fixed,
    shock_angle: Fixed,
    specific_heat_ratio: Fixed,
) -> Result<Fixed, IsentropicFlowError> {
    checked(
        specific_heat_ratio.twice().times(normal_mach_squared_spec(upstream_mach, shock_angle)).minus(
            specific_heat_ratio.minus(Fixed::one()),
        ).over(specific_heat_ratio.plus(Fixed::one())),
    )
}

/// Static pressure ratio across the shock,
/// `(2 g M^2 sin^2(beta) - (g - 1)) / (g + 1)`.
#[verifier::when_used_as_spec(calc_pressure_ratio_spec)]
pub fn calc_pressure_ratio(upstream_mach: Fixed, shock_angle: Fixed, specific_heat_ratio: Fixed) -> (r:
    Result<Fixed, IsentropicFlowError>)
    ensures
        r == calc_pressure_ratio_spec(upstream_mach, shock_angle, specific_heat_ratio),
{
    checked(
        specific_heat_ratio.twice().times(normal_mach_squared(upstream_mach, shock_angle)).minus(
            specific_heat_ratio.minus(Fixed::one()),
        ).over(specific_heat_ratio.plus(Fixed::one())),
    )
}

/// The value that `calc_density_ratio` returns.
pub open spec fn calc_density_ratio_spec(
    upstream_mach: Fixed,
    shock_angle: Fixed,
    specific_heat_ratio: Fixed,
) -> Result<Fixed, IsentropicFlowError> {
    checked(
        specific_heat_ratio.plus(Fixed::one()).times(
            normal_mach_squared_spec(upstream_mach, shock_angle),
        ).over(
            specific_heat_ratio.minus(Fixed::one()).times(
                normal_mach_squared_spec(upstream_mach, shock_angle),
            ).plus(Fixed::from_int(2)),
        ),
    )
}

/// Density ratio across the shock,
/// `(g + 1) M^2 sin^2(beta) / ((g - 1) M^2 sin^2(beta) + 2)`.
#[verifier::when_used_as_spec(calc_density_ratio_spec)]
pub fn calc_density_ratio(upstream_mach: Fixed, shock_angle: Fixed, specific_heat_ratio: Fixed) -> (r:
    Result<Fixed, IsentropicFlowError>)
    ensures
        r == calc_density_ratio_spec(upstream_mach, shock_angle, specific_heat_ratio),
{
    let normal = normal_mach_squared(upstream_mach, shock_angle);
    checked(
        specific_heat_ratio.plus(Fixed::one()).times(normal).over(
            specific_heat_ratio.minus(Fixed::one()).times(normal).plus(Fixed::from_int(2)),
        ),
    )
}

/// The value that `calc_temperature_ratio` returns.
pub open spec fn calc_temperature_ratio_spec(
    upstream_mach: Fixed,
    shock_angle: Fixed,
    specific_heat_ratio: Fixed,
) -> Result<Fixed, IsentropicFlowError> {
    let pressure = calc_pressure_ratio_spec(upstream_mach, shock_angle, specific_heat_ratio);
    let density = calc_density_ratio_spec(upstream_mach, shock_angle, specific_heat_ratio);
    if pressure is Err {
        Err(pressure->Err_0)
    } else if density is Err {
        Err(density->Err_0)
    } else {
        checked((pressure->Ok_0).over(density->Ok_0))
    }
}

/// Static temperature ratio across the shock: the pressure ratio over the
/// density ratio, as the gas law has it.
#[verifier::when_used_as_spec(calc_temperature_ratio_spec)]
pub fn calc_temperature_ratio(upstream_mach: Fixed, shock_angle: Fixed, specific_heat_ratio: Fixed) -> (r:
    Result<Fixed, IsentropicFlowError>)
    ensures
        r == calc_temperature_ratio_spec(upstream_mach, shock_angle, specific_heat_ratio),
{
    let pressure_ratio = calc_pressure_ratio(upstream_mach, shock_angle, specific_heat_ratio)?;
    let density_ratio = calc_density_ratio(upstream_mach, shock_angle, specific_heat_ratio)?;
    checked(pressure_ratio.over(density_ratio))
}

/// The value that `calc_stagnation_pressure_ratio` returns.
pub open spec fn calc_stagnation_pressure_ratio_spec(
    upstream_mach: Fixed,
    shock_angle: Fixed,
    specific_heat_ratio: Fixed,
) -> Result<Fixed, IsentropicFlowError> {
    let density = calc_density_ratio_spec(upstream_mach, shock_angle, specific_heat_ratio);
    let pressure = calc_pressure_ratio_spec(upstream_mach, shock_angle, specific_heat_ratio);
    if !valid_specific_heat_ratio(specific_heat_ratio) {
        Err(IsentropicFlowError::InvalidSpecificHeatRatio)
    } else if density is Err {
        Err(density->Err_0)
    } else if pressure is Err {
        Err(pressure->Err_0)
    } else {
        positive(stagnation_ratio_spec(density->Ok_0, pressure->Ok_0, specific_heat_ratio))
    }
}

/// Stagnation pressure ratio across the shock,
/// `rho^(g/(g - 1)) (1/p)^(1/(g - 1))` in the density ratio `rho` and the
/// pressure ratio `p`; see [`crate::isentropic::stagnation_ratio_spec`] for how
/// it is evaluated. A ratio too small to be told from zero is a domain error.
#[verifier::when_used_as_spec(calc_stagnation_pressure_ratio_spec)]
pub fn calc_stagnation_pressure_ratio(
    upstream_mach: Fixed,
    shock_angle: Fixed,
    specific_heat_ratio: Fixed,
) -> (r: Result<Fixed, IsentropicFlowError>)
    ensures
        r == calc_stagnation_pressure_ratio_spec(upstream_mach, shock_angle, specific_heat_ratio),
        r matches Ok(ratio) ==> ratio.gt(Fixed::zero()),
{
    if !valid_specific_heat_ratio(specific_heat_ratio) {
        return Err(IsentropicFlowError::InvalidSpecificHeatRatio);
    }
    let density_ratio = calc_density_ratio(upstream_mach, shock_angle, specific_heat_ratio)?;
    let pressure_ratio = calc_pressure_ratio(upstream_mach, shock_angle, specific_heat_ratio)?;
    positive(stagnation_ratio(density_ratio, pressure_ratio, specific_heat_ratio))
}

/// The value that `calc_normal_upstream_mach` returns.
pub open spec fn calc_normal_upstream_mach_spec(upstream_mach: Fixed, shock_angle: Fixed) -> Result<
    Fixed,
    IsentropicFlowError,
> {
    if upstream_mach.le(Fixed::one()) {
        Err(IsentropicFlowError::InvalidMachNumber)
    } else {
        checked(upstream_mach.times(shock_angle.sin()))
    }
}

/// Component of a supersonic upstream Mach number normal to the shock,
/// `M sin(beta)`.
#[verifier::when_used_as_spec(calc_normal_upstream_mach_spec)]
pub fn calc_normal_upstream_mach(upstream_mach: Fixed, shock_angle: Fixed) -> (r: Result<
    Fixed,
    IsentropicFlowError,
>)
    ensures
        r == calc_normal_upstream_mach_spec(upstream_mach, shock_angle),
{
    if upstream_mach.le(Fixed::one()) {
        return Err(IsentropicFlowError::InvalidMachNumber);
    }
    checked(upstream_mach.times(shock_angle.sin()))
}

/// The value that `calc_normal_downstream_mach` returns.
pub open spec fn calc_normal_downstream_mach_spec(
    downstream_mach: Fixed,
    shock_angle: Fixed,
    deflection_angle: Fixed,
) -> Result<Fixed, IsentropicFlowError> {
    if downstream_mach.le(Fixed::one()) {
        Err(IsentropicFlowError::InvalidMachNumber)
    } else {
        checked(downstream_mach.times(shock_angle.minus(deflection_angle).sin()))
    }
}

/// Component of a supersonic downstream Mach number normal to the shock,
/// `M2 sin(beta - theta)`.
#[verifier::when_used_as_spec(calc_normal_downstream_mach_spec)]
pub fn calc_normal_downstream_mach(
    downstream_mach: Fixed,
    shock_angle: Fixed,
    deflection_angle: Fixed,
) -> (r: Result<Fixed, IsentropicFlowError>)
    ensures
        r == calc_normal_downstream_mach_spec(downstream_mach, shock_angle, deflection_angle),
{
    if downstream_mach.le(Fixed::one()) {
        return Err(IsentropicFlowError::InvalidMachNumber);
    }
    checked(downstream_mach.times(shock_angle.minus(deflection_angle).sin()))
}

/// Downstream Mach number behind a shock at `shock_angle` that turns the flow
/// by `deflection_angle`: the normal component
/// `sqrt((1 + (g - 1) Mn^2 / 2) / (g Mn^2 - (g - 1)/2))` divided by
/// `sin(beta - theta)`.
pub open spec fn calc_downstream_mach_spec(
    upstream_mach: Fixed,
    shock_angle: Fixed,
    deflection_angle: Fixed,
    specific_heat_ratio: Fixed,
) -> Result<Fixed, IsentropicFlowError> {
    let normal = calc_normal_upstream_mach_spec(upstream_mach, shock_angle);
    if normal is Err {
        Err(normal->Err_0)
    } else {
        let squared = (normal->Ok_0).squared();
        let normal_downstream = Fixed::one().plus(
            specific_heat_ratio.minus(Fixed::one()).times(squared).half(),
        ).over(
            specific_heat_ratio.times(squared).minus(specific_heat_ratio.minus(Fixed::one()).half()),
        ).sqrt();
        checked(normal_downstream.over(shock_angle.minus(deflection_angle).sin()))
    }
}

#[verifier::when_used_as_spec(calc_downstream_mach_spec)]
fn calc_downstream_mach(
    upstream_mach: Fixed,
    shock_angle: Fixed,
    deflection_angle: Fixed,
    specific_heat_ratio: Fixed,
) -> (r: Result<Fixed, IsentropicFlowError>)
    ensures
        r == calc_downstream_mach_spec(
            upstream_mach,
            shock_angle,
            deflection_angle,
            specific_heat_ratio,
        ),
{
    let normal_upstream_mach = calc_normal_upstream_mach(upstream_mach, shock_angle)?;
    let squared = normal_upstream_mach.squared();
    let normal_downstream_mach = Fixed::one().plus(
        specific_heat_ratio.minus(Fixed::one()).times(squared).half(),
    ).over(
        specific_heat_ratio.times(squared).minus(specific_heat_ratio.minus(Fixed::one()).half()),
    ).sqrt();
    checked(normal_downstream_mach.over(shock_angle.minus(deflection_angle).sin()))
}

/// The value that `calc_downstream_mach_from_shock_angle` returns.
pub open spec fn calc_downstream_mach_from_shock_angle_spec(
    upstream_mach: Fixed,
    shock_angle: Fixed,
    specific_heat_ratio: Fixed,
) -> Result<Fixed, IsentropicFlowError> {
    let deflection = calc_deflection_angle_spec(upstream_mach, shock_angle, specific_heat_ratio);
    if deflection is Err {
        Err(deflection->Err_0)
    } else {
        calc_downstream_mach_spec(upstream_mach, shock_angle, deflection->Ok_0, specific_heat_ratio)
    }
}

/// Downstream Mach number behind a shock at `shock_angle`.
#[verifier::when_used_as_spec(calc_downstream_mach_from_shock_angle_spec)]
pub fn calc_downstream_mach_from_shock_angle(
    upstream_mach: Fixed,
    shock_angle: Fixed,
    specific_heat_ratio: Fixed,
) -> (r: Result<Fixed, IsentropicFlowError>)
    ensures
        r == calc_downstream_mach_from_shock_angle_spec(
            upstream_mach,
            shock_angle,
            specific_heat_ratio,
        ),
{
    let deflection_angle = calc_deflection_angle(upstream_mach, shock_angle, specific_heat_ratio)?;
    calc_downstream_mach(upstream_mach, shock_angle, deflection_angle, specific_heat_ratio)
}

/// The function whose root is the shock angle: the deflection that a shock
/// angle gives, less the deflection asked for.
pub open spec fn shock_angle_residual(
    upstream_mach: Fixed,
    deflection_angle: Fixed,
    specific_heat_ratio: Fixed,
) -> spec_fn(Fixed) -> Fixed {
    |shock_angle: Fixed|
        deflection_angle_spec(upstream_mach, shock_angle, specific_heat_ratio).minus(
            deflection_angle,
        )
}

/// The value that `calc_shock_angle` returns.
///
/// The search runs over the weak shocks: between the Mach angle, where the
/// flow is not turned, and the shock angle of greatest deflection. A
/// deflection that is negative, or greater than the greatest one, is given
/// by no attached weak shock and is a domain error, as is a deflection that
/// is no number at either end. Where the deflection at the Mach angle is
/// already the one asked for, or more, the Mach angle is the answer.
pub open spec fn calc_shock_angle_spec(
    upstream_mach: Fixed,
    deflection_angle: Fixed,
    specific_heat_ratio: Fixed,
) -> Result<Fixed, IsentropicFlowError> {
    let weakest = calc_mach_angle_from_mach_spec(upstream_mach);
    let steepest = calc_max_shock_angle_spec(upstream_mach, specific_heat_ratio);
    let g = shock_angle_residual(upstream_mach, deflection_angle, specific_heat_ratio);
    if upstream_mach.le(Fixed::one()) {
        Err(IsentropicFlowError::InvalidMachNumber)
    } else if steepest is Err {
        Err(steepest->Err_0)
    } else if weakest is Err {
        Err(weakest->Err_0)
    } else if !deflection_angle.ge(Fixed::zero()) || !(weakest->Ok_0).le(steepest->Ok_0) {
        Err(IsentropicFlowError::DomainError)
    } else if !g(weakest->Ok_0).defined() || !g(steepest->Ok_0).defined() {
        Err(IsentropicFlowError::DomainError)
    } else if g(steepest->Ok_0).lt(Fixed::zero()) {
        Err(IsentropicFlowError::DomainError)
    } else if g(weakest->Ok_0).ge(Fixed::zero()) {
        Ok(weakest->Ok_0)
    } else if g(steepest->Ok_0) == Fixed::zero() {
        Ok(steepest->Ok_0)
    } else {
        bisection_spec(g, weakest->Ok_0, steepest->Ok_0, None, None)
    }
}

/// What the search for a shock angle returns. It never fails for want of
/// iterations. A shock angle that it returns lies between the Mach angle
/// and the shock angle of greatest deflection. Unless it is one of those
/// two, the residual there, or half the bracket that the search ended on, is
/// smaller than the default tolerance, and the residual is negative at the
/// lower end of that bracket and positive at its upper end.
pub proof fn lemma_shock_angle_search(
    upstream_mach: Fixed,
    deflection_angle: Fixed,
    specific_heat_ratio: Fixed,
)
    ensures
        ({
            let weakest = calc_mach_angle_from_mach_spec(upstream_mach)->Ok_0;
            let steepest = calc_max_shock_angle_spec(upstream_mach, specific_heat_ratio)->Ok_0;
            let g = shock_angle_residual(upstream_mach, deflection_angle, specific_heat_ratio);
            let found = calc_shock_angle_spec(upstream_mach, deflection_angle, specific_heat_ratio);
            let run = bisection_run(
                g,
                weakest,
                steepest,
                tolerance_or_default(None),
                iterations_or_default(None),
            );
            &&& found != Err::<Fixed, IsentropicFlowError>(IsentropicFlowError::NonConvergence)
            &&& found matches Ok(shock_angle) ==> {
                &&& weakest.le(shock_angle)
                &&& shock_angle.le(steepest)
                &&& shock_angle != weakest && shock_angle != steepest ==> {
                    &&& g(shock_angle).abs().lt(tolerance_or_default(None)) || run.upper.minus(
                        run.lower,
                    ).half().lt(tolerance_or_default(None))
                    &&& run.lower.le(shock_angle)
                    &&& shock_angle.le(run.upper)
                    &&& g(run.lower).lt(Fixed::zero())
                    &&& g(run.upper).gt(Fixed::zero())
                }
            }
        }),
{
    let weakest = calc_mach_angle_from_mach_spec(upstream_mach);
    let steepest = calc_max_shock_angle_spec(upstream_mach, specific_heat_ratio);
    let g = shock_angle_residual(upstream_mach, deflection_angle, specific_heat_ratio);
    let tol = tolerance_or_default(None);
    let cap = iterations_or_default(None);
    if weakest is Ok && steepest is Ok && (weakest->Ok_0).le(steepest->Ok_0) && g(
        weakest->Ok_0,
    ).lt(Fixed::zero()) && g(steepest->Ok_0).gt(Fixed::zero()) {
        lemma2_to64();
        lemma_bisection_root_bracketed(g, weakest->Ok_0, steepest->Ok_0, tol, cap);
        lemma_bisection_decides_within(g, weakest->Ok_0, steepest->Ok_0, tol, cap, 64);
        lemma_bisection_keeps_direction(g, weakest->Ok_0, steepest->Ok_0, tol, cap);
    }
}

/// Shock angle of the weak shock that turns a supersonic flow by
/// `deflection_angle`: bisection on the deflection between the Mach angle
/// and the shock angle of greatest deflection, with the default tolerance
/// and cap. The deflection rises from nothing to its greatest value over
/// that range, so every deflection that an attached shock gives is found,
/// and a greater one is refused as a domain error.
#[verifier::when_used_as_spec(calc_shock_angle_spec)]
pub fn calc_shock_angle(upstream_mach: Fixed, deflection_angle: Fixed, specific_heat_ratio: Fixed) -> (r:
    Result<Fixed, IsentropicFlowError>)
    ensures
        r == calc_shock_angle_spec(upstream_mach, deflection_angle, specific_heat_ratio),
        r != Err::<Fixed, IsentropicFlowError>(IsentropicFlowError::NonConvergence),
        r matches Ok(shock_angle) ==> (calc_mach_angle_from_mach_spec(upstream_mach)->Ok_0).le(
            shock_angle,
        ) && shock_angle.le(calc_max_shock_angle_spec(upstream_mach, specific_heat_ratio)->Ok_0),
{
    proof {
        lemma_shock_angle_search(upstream_mach, deflection_angle, specific_heat_ratio);
    }
    if upstream_mach.le(Fixed::one()) {
        return Err(IsentropicFlowError::InvalidMachNumber);
    }
    let steepest = calc_max_shock_angle(upstream_mach, specific_heat_ratio)?;
    let weakest = calc_mach_angle_from_mach(upstream_mach)?;
    if !deflection_angle.ge(Fixed::zero()) || !weakest.le(steepest) {
        return Err(IsentropicFlowError::DomainError);
    }
    let at_weakest = deflection_behind(upstream_mach, weakest, specific_heat_ratio).minus(
        deflection_angle,
    );
    let at_steepest = deflection_behind(upstream_mach, steepest, specific_heat_ratio).minus(
        deflection_angle,
    );
    if !at_weakest.is_defined() || !at_steepest.is_defined() {
        return Err(IsentropicFlowError::DomainError);
    }
    if at_steepest.lt(Fixed::zero()) {
        return Err(IsentropicFlowError::DomainError);
    }
    if at_weakest.ge(Fixed::zero()) {
        return Ok(weakest);
    }
    if at_steepest == Fixed::zero() {
        return Ok(steepest);
    }
    let f = |shock_angle: Fixed| -> (y: Fixed)
        ensures
            y == deflection_angle_spec(upstream_mach, shock_angle, specific_heat_ratio).minus(
                deflection_angle,
            ),
        { deflection_behind(upstream_mach, shock_angle, specific_heat_ratio).minus(deflection_angle) };
    assert(computes(&f, shock_angle_residual(upstream_mach, deflection_angle, specific_heat_ratio)));
    bisection(&f, weakest, steepest, None, None)
}

/// The value that `calc_downstream_mach_from_deflection_angle` returns.
pub open spec fn calc_downstream_mach_from_deflection_angle_spec(
    upstream_mach: Fixed,
    deflection_angle: Fixed,
    specific_heat_ratio: Fixed,
) -> Result<Fixed, IsentropicFlowError> {
    let shock = calc_shock_angle_spec(upstream_mach, deflection_angle, specific_heat_ratio);
    if shock is Err {
        Err(shock->Err_0)
    } else {
        calc_downstream_mach_spec(upstream_mach, shock->Ok_0, deflection_angle, specific_heat_ratio)
    }
}

/// Downstream Mach number behind the weak shock that turns the flow by
/// `deflection_angle`.
#[verifier::when_used_as_spec(calc_downstream_mach_from_deflection_angle_spec)]
pub fn calc_downstream_mach_from_deflection_angle(
    upstream_mach: Fixed,
    deflection_angle: Fixed,
    specific_heat_ratio: Fixed,
) -> (r: Result<Fixed, IsentropicFlowError>)
    ensures
        r == calc_downstream_mach_from_deflection_angle_spec(
            upstream_mach,
            deflection_angle,
            specific_heat_ratio,
        ),
{
    let shock_angle = calc_shock_angle(upstream_mach, deflection_angle, specific_heat_ratio)?;
    calc_downstream_mach(upstream_mach, shock_angle, deflection_angle, specific_heat_ratio)
}

/// Sine of the shock angle of greatest deflection,
/// `sqrt(((g + 1) M^2 / 4 - 1 + sqrt((g + 1) ((g + 1) M^4 / 16 + (g - 1) M^2 / 2 + 1))) / (g M^2))`,
/// with numerator and denominator divided by `M^2`, so that no power of the
/// Mach number is formed: with `w = (1/M)^2` it is
/// `sqrt(((g + 1)/4 - w + sqrt((g + 1) ((g + 1)/16 + (g - 1) w / 2 + w^2))) / g)`.
pub open spec fn sin_max_shock_angle_spec(upstream_mach: Fixed, specific_heat_ratio: Fixed) -> Fixed {
    let w = Fixed::one().over(upstream_mach).squared();
    let g_plus_one = specific_heat_ratio.plus(Fixed::one());
    let inner = g_plus_one.times(
        g_plus_one.div_int(16).plus(specific_heat_ratio.minus(Fixed::one()).times(w).half()).plus(
            w.squared(),
        ),
    ).sqrt();
    g_plus_one.div_int(4).minus(w).plus(inner).over(specific_heat_ratio).sqrt()
}

#[verifier::when_used_as_spec(sin_max_shock_angle_spec)]
fn sin_max_shock_angle(upstream_mach: Fixed, specific_heat_ratio: Fixed) -> (r: Fixed)
    ensures
        r == sin_max_shock_angle_spec(upstream_mach, specific_heat_ratio),
{
    let w = Fixed::one().over(upstream_mach).squared();
    let g_plus_one = specific_heat_ratio.plus(Fixed::one());
    let inner = g_plus_one.times(
        g_plus_one.div_int(16).plus(specific_heat_ratio.minus(Fixed::one()).times(w).half()).plus(
            w.squared(),
        ),
    ).sqrt();
    g_plus_one.div_int(4).minus(w).plus(inner).over(specific_heat_ratio).sqrt()
}

/// The value that `calc_max_shock_angle` returns.
pub open spec fn calc_max_shock_angle_spec(upstream_mach: Fixed, specific_heat_ratio: Fixed) -> Result<
    Fixed,
    IsentropicFlowError,
> {
    let sine = sin_max_shock_angle_spec(upstream_mach, specific_heat_ratio);
    if !valid_specific_heat_ratio(specific_heat_ratio) {
        Err(IsentropicFlowError::InvalidSpecificHeatRatio)
    } else if upstream_mach.le(Fixed::one()) {
        Err(IsentropicFlowError::InvalidMachNumber)
    } else if sine.gt(Fixed::one()) || sine.lt(Fixed::zero()) {
        Err(IsentropicFlowError::MathError)
    } else {
        checked(sine.asin())
    }
}

/// Shock angle at which the deflection of a supersonic flow is greatest. A
/// sine outside zero to one is a math error. The formula forms no power of
/// the Mach number and holds up to the greatest Mach number there is.
#[verifier::when_used_as_spec(calc_max_shock_angle_spec)]
pub fn calc_max_shock_angle(upstream_mach: Fixed, specific_heat_ratio: Fixed) -> (r: Result<
    Fixed,
    IsentropicFlowError,
>)
    ensures
        r == calc_max_shock_angle_spec(upstream_mach, specific_heat_ratio),
{
    if !valid_specific_heat_ratio(specific_heat_ratio) {
        return Err(IsentropicFlowError::InvalidSpecificHeatRatio);
    }
    if upstream_mach.le(Fixed::one()) {
        return Err(IsentropicFlowError::InvalidMachNumber);
    }
    let sine = sin_max_shock_angle(upstream_mach, specific_heat_ratio);
    if sine.gt(Fixed::one()) || sine.lt(Fixed::zero()) {
        return Err(IsentropicFlowError::MathError);
    }
    checked(sine.asin())
}

/// The quantities of an oblique shock.
pub struct ObliqueShockValues {
    /// Mach number ahead of the shock.
    pub upstream_mach: Fixed,
    /// Mach number behind the shock.
    pub downstream_mach: Fixed,
    /// Angle by which the shock turns the flow, in radians.
    pub deflection_angle: Fixed,
    /// Angle between the shock and the upstream flow, in radians.
    pub shock_angle: Fixed,
    /// Static pressure behind over ahead.
    pub pressure_ratio: Fixed,
    /// Density behind over ahead.
    pub density_ratio: Fixed,
    /// Static temperature behind over ahead.
    pub temperature_ratio: Fixed,
    /// Stagnation pressure behind over ahead.
    pub stagnation_pressure_ratio: Fixed,
    /// Upstream Mach number normal to the shock.
    pub normal_upstream_mach: Fixed,
    /// Downstream Mach number normal to the shock.
    pub normal_downstream_mach: Fixed,
}

/// An oblique shock: an upstream Mach number and a shock angle with every
/// quantity that follows from them. It is built whole by its constructors.
#[derive(Clone, Copy, Debug)]
pub struct ObliqueShock {
    upstream_mach: Fixed,
    downstream_mach: Fixed,
    deflection_angle: Fixed,
    shock_angle: Fixed,
    pressure_ratio: Fixed,
    density_ratio: Fixed,
    temperature_ratio: Fixed,
    stagnation_pressure_ratio: Fixed,
    normal_upstream_mach: Fixed,
    normal_downstream_mach: Fixed,
}

impl View for ObliqueShock {
    type V = ObliqueShockValues;

    closed spec fn view(&self) -> ObliqueShockValues {
        ObliqueShockValues {
            upstream_mach: self.upstream_mach,
            downstream_mach: self.downstream_mach,
            deflection_angle: self.deflection_angle,
            shock_angle: self.shock_angle,
            pressure_ratio: self.pressure_ratio,
            density_ratio: self.density_ratio,
            temperature_ratio: self.temperature_ratio,
            stagnation_pressure_ratio: self.stagnation_pressure_ratio,
            normal_upstream_mach: self.normal_upstream_mach,
            normal_downstream_mach: self.normal_downstream_mach,
        }
    }
}

/// A result with the value it holds taken by its view.
pub open spec fn shock_values(r: Result<ObliqueShock, IsentropicFlowError>) -> Result<
    ObliqueShockValues,
    IsentropicFlowError,
> {
    match r {
        Ok(v) => Ok(v@),
        Err(e) => Err(e),
    }
}

impl ObliqueShockValues {
    /// What holds of every oblique shock that is built: each quantity is a
    /// number, and the flow is supersonic on both sides of the shock.
    pub open spec fn well_formed(self) -> bool {
        &&& self.upstream_mach.gt(Fixed::one())
        &&& self.downstream_mach.gt(Fixed::one())
        &&& self.deflection_angle.defined()
        &&& self.shock_angle.defined()
        &&& self.pressure_ratio.defined()
        &&& self.density_ratio.defined()
        &&& self.temperature_ratio.defined()
        &&& self.stagnation_pressure_ratio.defined()
        &&& self.normal_upstream_mach.defined()
        &&& self.normal_downstream_mach.defined()
    }
}

impl ObliqueShock {
    /// The value that `from_mach_and_shock_angle` returns.
    pub open spec fn from_mach_and_shock_angle_spec(
        upstream_mach: Fixed,
        shock_angle: Fixed,
        specific_heat_ratio: Fixed,
    ) -> Result<ObliqueShockValues, IsentropicFlowError> {
        let deflection = calc_deflection_angle_spec(upstream_mach, shock_angle, specific_heat_ratio);
        let downstream = if deflection is Ok {
            calc_downstream_mach_spec(
                upstream_mach,
                shock_angle,
                deflection->Ok_0,
                specific_heat_ratio,
            )
        } else {
            deflection
        };
        let pressure = calc_pressure_ratio_spec(upstream_mach, shock_angle, specific_heat_ratio);
        let density = calc_density_ratio_spec(upstream_mach, shock_angle, specific_heat_ratio);
        let temperature = calc_temperature_ratio_spec(
            upstream_mach,
            shock_angle,
            specific_heat_ratio,
        );
        let stagnation = calc_stagnation_pressure_ratio_spec(
            upstream_mach,
            shock_angle,
            specific_heat_ratio,
        );
        let normal_upstream = calc_normal_upstream_mach_spec(upstream_mach, shock_angle);
        let normal_downstream = if deflection is Ok && downstream is Ok {
            calc_normal_downstream_mach_spec(downstream->Ok_0, shock_angle, deflection->Ok_0)
        } else {
            downstream
        };
        if deflection is Err {
            Err(deflection->Err_0)
        } else if downstream is Err {
            Err(downstream->Err_0)
        } else if pressure is Err {
            Err(pressure->Err_0)
        } else if density is Err {
            Err(density->Err_0)
        } else if temperature is Err {
            Err(temperature->Err_0)
        } else if stagnation is Err {
            Err(stagnation->Err_0)
        } else if normal_upstream is Err {
            Err(normal_upstream->Err_0)
        } else if normal_downstream is Err {
            Err(normal_downstream->Err_0)
        } else {
            Ok(
                ObliqueShockValues {
                    upstream_mach,
                    downstream_mach: downstream->Ok_0,
                    deflection_angle: deflection->Ok_0,
                    shock_angle,
                    pressure_ratio: pressure->Ok_0,
                    density_ratio: density->Ok_0,
                    temperature_ratio: temperature->Ok_0,
                    stagnation_pressure_ratio: stagnation->Ok_0,
                    normal_upstream_mach: normal_upstream->Ok_0,
                    normal_downstream_mach: normal_downstream->Ok_0,
                },
            )
        }
    }

    /// The oblique shock at `shock_angle` in a flow at `upstream_mach`. The
    /// first quantity that cannot be had decides the error, in the order
    /// deflection angle, downstream Mach number, pressure, density,
    /// temperature and stagnation pressure ratio, normal upstream and normal
    /// downstream Mach number. The normal downstream Mach number is had only
    /// of a supersonic flow: a shock so steep that the flow behind it is not
    /// supersonic gives `InvalidMachNumber`.
    pub fn from_mach_and_shock_angle(
        upstream_mach: Fixed,
        shock_angle: Fixed,
        specific_heat_ratio: Fixed,
    ) -> (r: Result<ObliqueShock, IsentropicFlowError>)
        ensures
            shock_values(r) == Self::from_mach_and_shock_angle_spec(
                upstream_mach,
                shock_angle,
                specific_heat_ratio,
            ),
            r matches Ok(shock) ==> shock@.well_formed(),
    {
        let deflection_angle = calc_deflection_angle(upstream_mach, shock_angle, specific_heat_ratio)?;
        let downstream_mach = calc_downstream_mach(
            upstream_mach,
            shock_angle,
            deflection_angle,
            specific_heat_ratio,
        )?;
        let pressure_ratio = calc_pressure_ratio(upstream_mach, shock_angle, specific_heat_ratio)?;
        let density_ratio = calc_density_ratio(upstream_mach, shock_angle, specific_heat_ratio)?;
        let temperature_ratio = calc_temperature_ratio(
            upstream_mach,
            shock_angle,
            specific_heat_ratio,
        )?;
        let stagnation_pressure_ratio = calc_stagnation_pressure_ratio(
            upstream_mach,
            shock_angle,
            specific_heat_ratio,
        )?;
        let normal_upstream_mach = calc_normal_upstream_mach(upstream_mach, shock_angle)?;
        let normal_downstream_mach = calc_normal_downstream_mach(
            downstream_mach,
            shock_angle,
            deflection_angle,
        )?;
        Ok(
            ObliqueShock {
                upstream_mach,
                downstream_mach,
                deflection_angle,
                shock_angle,
                pressure_ratio,
                density_ratio,
                temperature_ratio,
                stagnation_pressure_ratio,
                normal_upstream_mach,
                normal_downstream_mach,
            },
        )
    }

    /// The value that `from_mach_and_deflection_angle` returns.
    pub open spec fn from_mach_and_deflection_angle_spec(
        upstream_mach: Fixed,
        deflection_angle: Fixed,
        specific_heat_ratio: Fixed,
    ) -> Result<ObliqueShockValues, IsentropicFlowError> {
        match calc_shock_angle_spec(upstream_mach, deflection_angle, specific_heat_ratio) {
            Ok(shock_angle) => Self::from_mach_and_shock_angle_spec(
                upstream_mach,
                shock_angle,
                specific_heat_ratio,
            ),
            Err(e) => Err(e),
        }
    }

    /// The weak oblique shock that turns a flow at `upstream_mach` by
    /// `deflection_angle`: the shock angle is found first, and the shock is
    /// built at that angle.
    pub fn from_mach_and_deflection_angle(
        upstream_mach: Fixed,
        deflection_angle: Fixed,
        specific_heat_ratio: Fixed,
    ) -> (r: Result<ObliqueShock, IsentropicFlowError>)
        ensures
            shock_values(r) == Self::from_mach_and_deflection_angle_spec(
                upstream_mach,
                deflection_angle,
                specific_heat_ratio,
            ),
            r matches Ok(shock) ==> shock@.well_formed(),
    {
        let shock_angle = calc_shock_angle(upstream_mach, deflection_angle, specific_heat_ratio)?;
        ObliqueShock::from_mach_and_shock_angle(upstream_mach, shock_angle, specific_heat_ratio)
    }

    /// The value that `from_mach_and_normal_mach` returns.
    pub open spec fn from_mach_and_normal_mach_spec(
        upstream_mach: Fixed,
        normal_upstream_mach: Fixed,
        specific_heat_ratio: Fixed,
    ) -> Result<ObliqueShockValues, IsentropicFlowError> {
        if upstream_mach.le(Fixed::one()) {
            Err(IsentropicFlowError::InvalidMachNumber)
        } else if normal_upstream_mach.le(Fixed::one()) || normal_upstream_mach.gt(upstream_mach) {
            Err(IsentropicFlowError::InvalidMachNumber)
        } else {
            Self::from_mach_and_shock_angle_spec(
                upstream_mach,
                normal_upstream_mach.over(upstream_mach).asin(),
                specific_heat_ratio,
            )
        }
    }

    /// The oblique shock with a supersonic Mach number `normal_upstream_mach`
    /// normal to it, no greater than `upstream_mach`: the shock angle is
    /// `asin(Mn / M)`.
    pub fn from_mach_and_normal_mach(
        upstream_mach: Fixed,
        normal_upstream_mach: Fixed,
        specific_heat_ratio: Fixed,
    ) -> (r: Result<ObliqueShock, IsentropicFlowError>)
        ensures
            shock_values(r) == Self::from_mach_and_normal_mach_spec(
                upstream_mach,
                normal_upstream_mach,
                specific_heat_ratio,
            ),
            r matches Ok(shock) ==> shock@.well_formed(),
    {
        if upstream_mach.le(Fixed::one()) {
            return Err(IsentropicFlowError::InvalidMachNumber);
        }
        if normal_upstream_mach.le(Fixed::one()) || normal_upstream_mach.gt(upstream_mach) {
            return Err(IsentropicFlowError::InvalidMachNumber);
        }
        let shock_angle = normal_upstream_mach.over(upstream_mach).asin();
        ObliqueShock::from_mach_and_shock_angle(upstream_mach, shock_angle, specific_heat_ratio)
    }

    /// The quantity that `output` names.
    pub open spec fn select(values: ObliqueShockValues, output: Output) -> Fixed {
        match output {
            Output::DownstreamMach => values.downstream_mach,
            Output::DeflectionAngle => values.deflection_angle,
            Output::ShockAngle => values.shock_angle,
            Output::PressureRatio => values.pressure_ratio,
            Output::DensityRatio => values.density_ratio,
            Output::TemperatureRatio => values.temperature_ratio,
            Output::StagnationPressureRatio => values.stagnation_pressure_ratio,
            Output::NormalUpstreamMach => values.normal_upstream_mach,
            Output::NormalDownstreamMach => values.normal_downstream_mach,
        }
    }

    /// The quantity that `output` names.
    pub fn get(&self, output: Output) -> (v: Fixed)
        ensures
            v == Self::select(self@, output),
    {
        match output {
            Output::DownstreamMach => self.downstream_mach,
            Output::DeflectionAngle => self.deflection_angle,
            Output::ShockAngle => self.shock_angle,
            Output::PressureRatio => self.pressure_ratio,
            Output::DensityRatio => self.density_ratio,
            Output::TemperatureRatio => self.temperature_ratio,
            Output::StagnationPressureRatio => self.stagnation_pressure_ratio,
            Output::NormalUpstreamMach => self.normal_upstream_mach,
            Output::NormalDownstreamMach => self.normal_downstream_mach,
        }
    }
}

/// The shock that a list of known quantities describes. Four lists are
/// understood: upstream Mach number with shock angle, with deflection angle,
/// with deflection angle and shock angle (the shock angle decides), and with
/// normal upstream Mach number. Any other list is a domain error.
pub open spec fn shock_of_inputs_spec(input: Seq<Input>, specific_heat_ratio: Fixed) -> Result<
    ObliqueShockValues,
    IsentropicFlowError,
> {
    if input.len() == 2 && input[0] is UpstreamMach && input[1] is ShockAngle {
        ObliqueShock::from_mach_and_shock_angle_spec(
            input[0]->UpstreamMach_0,
            input[1]->ShockAngle_0,
            specific_heat_ratio,
        )
    } else if input.len() == 2 && input[0] is UpstreamMach && input[1] is DeflectionAngle {
        ObliqueShock::from_mach_and_deflection_angle_spec(
            input[0]->UpstreamMach_0,
            input[1]->DeflectionAngle_0,
            specific_heat_ratio,
        )
    } else if input.len() == 3 && input[0] is UpstreamMach && input[1] is DeflectionAngle
        && input[2] is ShockAngle {
        ObliqueShock::from_mach_and_shock_angle_spec(
            input[0]->UpstreamMach_0,
            input[2]->ShockAngle_0,
            specific_heat_ratio,
        )
    } else if input.len() == 2 && input[0] is UpstreamMach && input[1] is NormalUpstreamMach {
        ObliqueShock::from_mach_and_normal_mach_spec(
            input[0]->UpstreamMach_0,
            input[1]->NormalUpstreamMach_0,
            specific_heat_ratio,
        )
    } else {
        Err(IsentropicFlowError::DomainError)
    }
}

/// The value that `calculate` returns.
pub open spec fn calculate_spec(input: Seq<Input>, output: Output, specific_heat_ratio: Fixed) -> Result<
    Fixed,
    IsentropicFlowError,
> {
    if !valid_specific_heat_ratio(specific_heat_ratio) {
        Err(IsentropicFlowError::InvalidSpecificHeatRatio)
    } else {
        match shock_of_inputs_spec(input, specific_heat_ratio) {
            Ok(values) => Ok(ObliqueShock::select(values, output)),
            Err(e) => Err(e),
        }
    }
}

/// One quantity of the oblique shock that the list `input` describes; see
/// [`shock_of_inputs_spec`] for the lists that are understood.
pub fn calculate(input: Vec<Input>, output: Output, specific_heat_ratio: Fixed) -> (r: Result<
    Fixed,
    IsentropicFlowError,
>)
    ensures
        r == calculate_spec(input@, output, specific_heat_ratio),
{
    if !valid_specific_heat_ratio(specific_heat_ratio) {
        return Err(IsentropicFlowError::InvalidSpecificHeatRatio);
    }
    if input.len() < 2 || input.len() > 3 {
        return Err(IsentropicFlowError::DomainError);
    }
    let first = input[0];
    let second = input[1];
    let oblique_shock = if input.len() == 2 {
        match (first, second) {
            (Input::UpstreamMach(upstream_mach), Input::ShockAngle(shock_angle)) => {
                ObliqueShock::from_mach_and_shock_angle(
                    upstream_mach,
                    shock_angle,
                    specific_heat_ratio,
                )?
            },
            (Input::UpstreamMach(upstream_mach), Input::DeflectionAngle(deflection_angle)) => {
                ObliqueShock::from_mach_and_deflection_angle(
                    upstream_mach,
                    deflection_angle,
                    specific_heat_ratio,
                )?
            },
            (Input::UpstreamMach(upstream_mach), Input::NormalUpstreamMach(normal_upstream_mach)) => {
                ObliqueShock::from_mach_and_normal_mach(
                    upstream_mach,
                    normal_upstream_mach,
                    specific_heat_ratio,
                )?
            },
            _ => {
                return Err(IsentropicFlowError::DomainError);
            },
        }
    } else {
        let third = input[2];
        match (first, second, third) {
            (
                Input::UpstreamMach(upstream_mach),
                Input::DeflectionAngle(_),
                Input::ShockAngle(shock_angle),
            ) => {
                ObliqueShock::from_mach_and_shock_angle(
                    upstream_mach,
                    shock_angle,
                    specific_heat_ratio,
                )?
            },
            _ => {
                return Err(IsentropicFlowError::DomainError);
            },
        }
    };
    Ok(oblique_shock.get(output))
}

} // verus!
