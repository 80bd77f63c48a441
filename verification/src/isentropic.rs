//! Isentropic-flow relations for a calorically perfect gas.

use vstd::prelude::*;
use crate::fixed::Fixed;
use vstd::arithmetic::power2::lemma2_to64;
use crate::numerics::{
    bisection, bisection_run, bisection_spec, computes, iterations_or_default,
    lemma_bisection_decides_within, lemma_bisection_keeps_sign_change,
    lemma_bisection_root_bracketed, newton_raphson, newton_raphson_spec, same_sign,
    same_sign_spec, tolerance_or_default,
};
use crate::owed::{
    lemma_mach_from_temperature_ratio, lemma_temperature_ratio, temperature_inverse_is_owed,
    temperature_ratio_is_owed,
};

verus! {

/// Why a flow computation gave no value.
#[derive(Clone, Copy, Debug, PartialEq, Eq, Structural)]
pub enum IsentropicFlowError {
    /// A Mach number is negative, or not supersonic where a shock needs it to be.
    InvalidMachNumber,
    /// A Mach angle lies outside zero to a quarter turn.
    InvalidMachAngle,
    /// A static-to-stagnation temperature ratio lies outside (0, 1].
    InvalidTemperatureRatio,
    /// A static-to-stagnation pressure ratio lies outside (0, 1].
    InvalidPressureRatio,
    /// A static-to-stagnation density ratio lies outside (0, 1].
    InvalidDensityRatio,
    /// A Prandtl-Meyer angle is negative, or beyond what any Mach number in
    /// range reaches.
    InvalidPrandtlMeyerAngle,
    /// The specific-heat ratio is not greater than one.
    InvalidSpecificHeatRatio,
    /// An intermediate quantity left the range in which the relation is
    /// meaningful: the sine of the shock angle of greatest deflection came out
    /// above one or below zero. The roundings are not known to carry it
    /// there on any input.
    MathError,
    /// An argument or a computed value is undefined or outside its valid interval.
    DomainError,
    /// An iteration reached its cap before it converged.
    NonConvergence,
    /// Newton-Raphson met a derivative too small to divide by.
    SingularDerivative,
    /// The marching integration reached its last step without a sign change.
    UndeterminedCrossing,
}

/// The quantity a caller knows about an isentropic flow state.
#[derive(Clone, Copy, Debug)]
pub enum Input {
    MachNumber(Fixed),
    MachAngle(Fixed),
    TemperatureRatio(Fixed),
    PressureRatio(Fixed),
    DensityRatio(Fixed),
    PrandtlMeyerAngle(Fixed),
}

/// The quantity a caller asks for.
#[derive(Clone, Copy, Debug)]
pub enum Output {
    MachNumber,
    MachAngle,
    TemperatureRatio,
    PressureRatio,
    DensityRatio,
    PrandtlMeyerAngle,
}

/// Specific-heat ratio used when a caller gives none: that of air, 1.4.
pub open spec fn default_specific_heat_ratio_spec() -> Fixed {
    Fixed::from_ratio(14, 10)
}

/// Specific-heat ratio used when a caller gives none: that of air, 1.4.
#[verifier::when_used_as_spec(default_specific_heat_ratio_spec)]
pub fn default_specific_heat_ratio() -> (g: Fixed)
    ensures
        g == default_specific_heat_ratio_spec(),
{
    Fixed::from_ratio(14, 10)
}

/// A computed number as a result: a domain error when it is undefined.
pub open spec fn checked_spec(v: Fixed) -> Result<Fixed, IsentropicFlowError> {
    if v.defined() {
        Ok(v)
    } else {
        Err(IsentropicFlowError::DomainError)
    }
}

/// A computed number as a result: a domain error when it is undefined.
#[verifier::when_used_as_spec(checked_spec)]
pub fn checked(v: Fixed) -> (r: Result<Fixed, IsentropicFlowError>)
    ensures
        r == checked_spec(v),
{
    if v.is_defined() {
        Ok(v)
    } else {
        Err(IsentropicFlowError::DomainError)
    }
}

/// The value that `positive` returns.
pub open spec fn positive_spec(v: Fixed) -> Result<Fixed, IsentropicFlowError> {
    if v.gt(Fixed::zero()) {
        Ok(v)
    } else {
        Err(IsentropicFlowError::DomainError)
    }
}

/// A computed ratio as a result: a domain error when it is undefined, zero or
/// negative. A static-to-stagnation ratio that rounds to zero is no ratio.
#[verifier::when_used_as_spec(positive_spec)]
pub fn positive(v: Fixed) -> (r: Result<Fixed, IsentropicFlowError>)
    ensures
        r == positive_spec(v),
        r matches Ok(ratio) ==> ratio.gt(Fixed::zero()),
{
    if v.gt(Fixed::zero()) {
        Ok(v)
    } else {
        Err(IsentropicFlowError::DomainError)
    }
}

/// The stagnation pressure ratio `rho^(g/(g - 1)) (1/p)^(1/(g - 1))` that goes
/// with a density ratio `rho` and a pressure ratio `p`, evaluated in
/// logarithms as `exp(g/(g - 1) ln(rho) - 1/(g - 1) ln(p))`: the small second
/// factor is then never rounded by itself.
pub open spec fn stagnation_ratio_spec(
    density_ratio: Fixed,
    pressure_ratio: Fixed,
    specific_heat_ratio: Fixed,
) -> Fixed {
    let g_minus_one = specific_heat_ratio.minus(Fixed::one());
    specific_heat_ratio.over(g_minus_one).times(density_ratio.ln()).minus(
        Fixed::one().over(g_minus_one).times(pressure_ratio.ln()),
    ).exp()
}

/// Evaluates [`stagnation_ratio_spec`].
#[verifier::when_used_as_spec(stagnation_ratio_spec)]
pub fn stagnation_ratio(density_ratio: Fixed, pressure_ratio: Fixed, specific_heat_ratio: Fixed) -> (r:
    Fixed)
    ensures
        r == stagnation_ratio_spec(density_ratio, pressure_ratio, specific_heat_ratio),
{
    let g_minus_one = specific_heat_ratio.minus(Fixed::one());
    specific_heat_ratio.over(g_minus_one).times(density_ratio.ln()).minus(
        Fixed::one().over(g_minus_one).times(pressure_ratio.ln()),
    ).exp()
}

/// The value that `valid_specific_heat_ratio` returns.
pub open spec fn valid_specific_heat_ratio_spec(specific_heat_ratio: Fixed) -> bool {
    specific_heat_ratio.gt(Fixed::one())
}

/// Whether a specific-heat ratio is greater than one.
#[verifier::when_used_as_spec(valid_specific_heat_ratio_spec)]
pub fn valid_specific_heat_ratio(specific_heat_ratio: Fixed) -> (valid: bool)
    ensures
        valid == valid_specific_heat_ratio_spec(specific_heat_ratio),
{
    specific_heat_ratio.gt(Fixed::one())
}

/// Stagnation-to-static temperature ratio `1 + (g - 1)/2 M^2`.
pub open spec fn stagnation_factor_spec(mach_number: Fixed, specific_heat_ratio: Fixed) -> Fixed {
    Fixed::one().plus(specific_heat_ratio.minus(Fixed::one()).half().times(mach_number.squared()))
}

#[verifier::when_used_as_spec(stagnation_factor_spec)]
fn stagnation_factor(mach_number: Fixed, specific_heat_ratio: Fixed) -> (r: Fixed)
    ensures
        r == stagnation_factor_spec(mach_number, specific_heat_ratio),
{
    Fixed::one().plus(specific_heat_ratio.minus(Fixed::one()).half().times(mach_number.squared()))
}

/// The value that `calc_mach_angle_from_mach` returns.
pub open spec fn calc_mach_angle_from_mach_spec(mach_number: Fixed) -> Result<
    Fixed,
    IsentropicFlowError,
> {
    if mach_number.lt(Fixed::zero()) {
        Err(IsentropicFlowError::InvalidMachNumber)
    } else {
        checked(Fixed::one().over(mach_number).asin())
    }
}

/// Mach angle `asin(1 / M)`. A negative Mach number is invalid; a subsonic
/// one has no Mach angle and gives a domain error.
#[verifier::when_used_as_spec(calc_mach_angle_from_mach_spec)]
pub fn calc_mach_angle_from_mach(mach_number: Fixed) -> (r: Result<Fixed, IsentropicFlowError>)
    ensures
        r == calc_mach_angle_from_mach_spec(mach_number),
{
    if mach_number.lt(Fixed::zero()) {
        return Err(IsentropicFlowError::InvalidMachNumber);
    }
    checked(Fixed::one().over(mach_number).asin())
}

/// The value that `calc_pressure_ratio_from_mach` returns.
pub open spec fn calc_pressure_ratio_from_mach_spec(
    mach_number: Fixed,
    specific_heat_ratio: Fixed,
) -> Result<Fixed, IsentropicFlowError> {
    if !valid_specific_heat_ratio(specific_heat_ratio) {
        Err(IsentropicFlowError::InvalidSpecificHeatRatio)
    } else {
        positive(
            stagnation_factor_spec(mach_number, specific_heat_ratio).powf(
                specific_heat_ratio.neg().over(specific_heat_ratio.minus(Fixed::one())),
            ),
        )
    }
}

/// Static-to-stagnation pressure ratio `(1 + (g - 1)/2 M^2)^(-g/(g - 1))`. A
/// ratio too small to be told from zero is a domain error.
#[verifier::when_used_as_spec(calc_pressure_ratio_from_mach_spec)]
pub fn calc_pressure_ratio_from_mach(mach_number: Fixed, specific_heat_ratio: Fixed) -> (r: Result<
    Fixed,
    IsentropicFlowError,
>)
    ensures
        r == calc_pressure_ratio_from_mach_spec(mach_number, specific_heat_ratio),
        r matches Ok(ratio) ==> ratio.gt(Fixed::zero()),
{
    if !valid_specific_heat_ratio(specific_heat_ratio) {
        return Err(IsentropicFlowError::InvalidSpecificHeatRatio);
    }
    positive(
        stagnation_factor(mach_number, specific_heat_ratio).powf(
            specific_heat_ratio.neg().over(specific_heat_ratio.minus(Fixed::one())),
        ),
    )
}

/// The value that `calc_temperature_ratio_from_mach` returns.
pub open spec fn calc_temperature_ratio_from_mach_spec(
    mach_number: Fixed,
    specific_heat_ratio: Fixed,
) -> Result<Fixed, IsentropicFlowError> {
    if !valid_specific_heat_ratio(specific_heat_ratio) {
        Err(IsentropicFlowError::InvalidSpecificHeatRatio)
    } else {
        positive(Fixed::one().over(stagnation_factor_spec(mach_number, specific_heat_ratio)))
    }
}

/// Static-to-stagnation temperature ratio `1 / (1 + (g - 1)/2 M^2)`. A ratio
/// too small to be told from zero is a domain error. For a Mach number from
/// zero to 1024 and a specific-heat ratio from 1.0625 to 3
/// ([`temperature_ratio_is_owed`]) the result is a number, positive and at
/// most one.
#[verifier::when_used_as_spec(calc_temperature_ratio_from_mach_spec)]
pub fn calc_temperature_ratio_from_mach(mach_number: Fixed, specific_heat_ratio: Fixed) -> (r:
    Result<Fixed, IsentropicFlowError>)
    ensures
        r == calc_temperature_ratio_from_mach_spec(mach_number, specific_heat_ratio),
        r matches Ok(ratio) ==> ratio.gt(Fixed::zero()),
        temperature_ratio_is_owed(mach_number, specific_heat_ratio) ==> r is Ok && (r->Ok_0).le(
            Fixed::one(),
        ),
{
    proof {
        if temperature_ratio_is_owed(mach_number, specific_heat_ratio) {
            lemma_temperature_ratio(mach_number, specific_heat_ratio);
        }
    }
    if !valid_specific_heat_ratio(specific_heat_ratio) {
        return Err(IsentropicFlowError::InvalidSpecificHeatRatio);
    }
    positive(Fixed::one().over(stagnation_factor(mach_number, specific_heat_ratio)))
}

/// The value that `calc_density_ratio_from_mach` returns.
pub open spec fn calc_density_ratio_from_mach_spec(
    mach_number: Fixed,
    specific_heat_ratio: Fixed,
) -> Result<Fixed, IsentropicFlowError> {
    if !valid_specific_heat_ratio(specific_heat_ratio) {
        Err(IsentropicFlowError::InvalidSpecificHeatRatio)
    } else {
        positive(
            stagnation_factor_spec(mach_number, specific_heat_ratio).powf(
                Fixed::one().neg().over(specific_heat_ratio.minus(Fixed::one())),
            ),
        )
    }
}

/// Static-to-stagnation density ratio `(1 + (g - 1)/2 M^2)^(-1/(g - 1))`. A
/// ratio too small to be told from zero is a domain error.
#[verifier::when_used_as_spec(calc_density_ratio_from_mach_spec)]
pub fn calc_density_ratio_from_mach(mach_number: Fixed, specific_heat_ratio: Fixed) -> (r: Result<
    Fixed,
    IsentropicFlowError,
>)
    ensures
        r == calc_density_ratio_from_mach_spec(mach_number, specific_heat_ratio),
        r matches Ok(ratio) ==> ratio.gt(Fixed::zero()),
{
    if !valid_specific_heat_ratio(specific_heat_ratio) {
        return Err(IsentropicFlowError::InvalidSpecificHeatRatio);
    }
    positive(
        stagnation_factor(mach_number, specific_heat_ratio).powf(
            Fixed::one().neg().over(specific_heat_ratio.minus(Fixed::one())),
        ),
    )
}

/// The value that `calc_mach_from_speed_of_sound` returns.
pub open spec fn calc_mach_from_speed_of_sound_spec(velocity: Fixed, speed_of_sound: Fixed) -> Result<
    Fixed,
    IsentropicFlowError,
> {
    checked(velocity.over(speed_of_sound))
}

/// Mach number of a flow at `velocity` where sound travels at
/// `speed_of_sound`.
#[verifier::when_used_as_spec(calc_mach_from_speed_of_sound_spec)]
pub fn calc_mach_from_speed_of_sound(velocity: Fixed, speed_of_sound: Fixed) -> (r: Result<
    Fixed,
    IsentropicFlowError,
>)
    ensures
        r == calc_mach_from_speed_of_sound_spec(velocity, speed_of_sound),
{
    checked(velocity.over(speed_of_sound))
}

/// The Prandtl-Meyer angle as a function of `eta = sqrt(M^2 - 1)`, with
/// `root = sqrt((g - 1)/(g + 1))`: `atan(root eta) / root - atan(eta)`.
pub open spec fn prandtl_meyer_angle_spec(mach_number: Fixed, specific_heat_ratio: Fixed) -> Fixed {
    let root = specific_heat_ratio.minus(Fixed::one()).over(
        specific_heat_ratio.plus(Fixed::one()),
    ).sqrt();
    let eta = mach_number.squared().minus(Fixed::one()).sqrt();
    Fixed::one().over(root).times(root.times(eta).atan()).minus(eta.atan())
}

/// The value that `prandtl_meyer_function` returns.
pub open spec fn prandtl_meyer_function_spec(mach_number: Fixed, specific_heat_ratio: Fixed) -> Result<
    Fixed,
    IsentropicFlowError,
> {
    if !valid_specific_heat_ratio(specific_heat_ratio) {
        Err(IsentropicFlowError::InvalidSpecificHeatRatio)
    } else if mach_number.le(Fixed::one()) {
        Err(IsentropicFlowError::InvalidMachNumber)
    } else {
        checked(prandtl_meyer_angle_spec(mach_number, specific_heat_ratio))
    }
}

/// Prandtl-Meyer angle of a supersonic Mach number.
#[verifier::when_used_as_spec(prandtl_meyer_function_spec)]
pub fn prandtl_meyer_function(mach_number: Fixed, specific_heat_ratio: Fixed) -> (r: Result<
    Fixed,
    IsentropicFlowError,
>)
    ensures
        r == prandtl_meyer_function_spec(mach_number, specific_heat_ratio),
{
    if !valid_specific_heat_ratio(specific_heat_ratio) {
        return Err(IsentropicFlowError::InvalidSpecificHeatRatio);
    }
    if mach_number.le(Fixed::one()) {
        return Err(IsentropicFlowError::InvalidMachNumber);
    }
    let root = specific_heat_ratio.minus(Fixed::one()).over(
        specific_heat_ratio.plus(Fixed::one()),
    ).sqrt();
    let eta = mach_number.squared().minus(Fixed::one()).sqrt();
    checked(Fixed::one().over(root).times(root.times(eta).atan()).minus(eta.atan()))
}

/// The value that `calc_mach_from_mach_angle` returns.
pub open spec fn calc_mach_from_mach_angle_spec(mach_angle: Fixed) -> Result<
    Fixed,
    IsentropicFlowError,
> {
    if mach_angle.lt(Fixed::zero()) || mach_angle.gt(Fixed::half_pi()) {
        Err(IsentropicFlowError::InvalidMachAngle)
    } else {
        checked(Fixed::one().over(mach_angle.sin()))
    }
}

/// Mach number `1 / sin(mu)` of a Mach angle between zero and a quarter turn.
#[verifier::when_used_as_spec(calc_mach_from_mach_angle_spec)]
pub fn calc_mach_from_mach_angle(mach_angle: Fixed) -> (r: Result<Fixed, IsentropicFlowError>)
    ensures
        r == calc_mach_from_mach_angle_spec(mach_angle),
{
    if mach_angle.lt(Fixed::zero()) || mach_angle.gt(Fixed::half_pi()) {
        return Err(IsentropicFlowError::InvalidMachAngle);
    }
    checked(Fixed::one().over(mach_angle.sin()))
}

/// Whether a static-to-stagnation ratio lies outside (0, 1].
pub open spec fn outside_unit_interval_spec(ratio: Fixed) -> bool {
    ratio.le(Fixed::zero()) || ratio.gt(Fixed::one())
}

#[verifier::when_used_as_spec(outside_unit_interval_spec)]
fn outside_unit_interval(ratio: Fixed) -> (outside: bool)
    ensures
        outside == outside_unit_interval_spec(ratio),
{
    ratio.le(Fixed::zero()) || ratio.gt(Fixed::one())
}

/// The Mach number at which the stagnation factor is `factor`:
/// `sqrt(2 (factor - 1) / (g - 1))`.
pub open spec fn mach_from_stagnation_factor_spec(factor: Fixed, specific_heat_ratio: Fixed) -> Fixed {
    factor.minus(Fixed::one()).twice().over(specific_heat_ratio.minus(Fixed::one())).sqrt()
}

#[verifier::when_used_as_spec(mach_from_stagnation_factor_spec)]
fn mach_from_stagnation_factor(factor: Fixed, specific_heat_ratio: Fixed) -> (r: Fixed)
    ensures
        r == mach_from_stagnation_factor_spec(factor, specific_heat_ratio),
{
    factor.minus(Fixed::one()).twice().over(specific_heat_ratio.minus(Fixed::one())).sqrt()
}

/// The value that `calc_mach_from_temperature_ratio` returns.
pub open spec fn calc_mach_from_temperature_ratio_spec(
    temperature_ratio: Fixed,
    specific_heat_ratio: Fixed,
) -> Result<Fixed, IsentropicFlowError> {
    if !valid_specific_heat_ratio(specific_heat_ratio) {
        Err(IsentropicFlowError::InvalidSpecificHeatRatio)
    } else if outside_unit_interval_spec(temperature_ratio) {
        Err(IsentropicFlowError::InvalidTemperatureRatio)
    } else {
        checked(
            mach_from_stagnation_factor_spec(Fixed::one().over(temperature_ratio), specific_heat_ratio),
        )
    }
}

/// Mach number at a static-to-stagnation temperature ratio in (0, 1]:
/// `sqrt(2 (1/T - 1) / (g - 1))`. For a ratio of at least 2^-16 and a
/// specific-heat ratio from 1.0625 to 3 ([`temperature_inverse_is_owed`])
/// the result is a number that is not negative.
#[verifier::when_used_as_spec(calc_mach_from_temperature_ratio_spec)]
pub fn calc_mach_from_temperature_ratio(temperature_ratio: Fixed, specific_heat_ratio: Fixed) -> (r:
    Result<Fixed, IsentropicFlowError>)
    ensures
        r == calc_mach_from_temperature_ratio_spec(temperature_ratio, specific_heat_ratio),
        temperature_inverse_is_owed(temperature_ratio, specific_heat_ratio) ==> r is Ok
            && Fixed::zero().le(r->Ok_0),
{
    proof {
        if temperature_inverse_is_owed(temperature_ratio, specific_heat_ratio) {
            lemma_mach_from_temperature_ratio(temperature_ratio, specific_heat_ratio);
        }
    }
    if !valid_specific_heat_ratio(specific_heat_ratio) {
        return Err(IsentropicFlowError::InvalidSpecificHeatRatio);
    }
    if outside_unit_interval(temperature_ratio) {
        return Err(IsentropicFlowError::InvalidTemperatureRatio);
    }
    checked(mach_from_stagnation_factor(Fixed::one().over(temperature_ratio), specific_heat_ratio))
}

/// The value that `calc_mach_from_pressure_ratio` returns.
pub open spec fn calc_mach_from_pressure_ratio_spec(
    pressure_ratio: Fixed,
    specific_heat_ratio: Fixed,
) -> Result<Fixed, IsentropicFlowError> {
    if !valid_specific_heat_ratio(specific_heat_ratio) {
        Err(IsentropicFlowError::InvalidSpecificHeatRatio)
    } else if outside_unit_interval_spec(pressure_ratio) {
        Err(IsentropicFlowError::InvalidPressureRatio)
    } else {
        checked(
            mach_from_stagnation_factor_spec(
                Fixed::one().over(
                    pressure_ratio.powf(
                        specific_heat_ratio.minus(Fixed::one()).over(specific_heat_ratio),
                    ),
                ),
                specific_heat_ratio,
            ),
        )
    }
}

/// Mach number at a static-to-stagnation pressure ratio in (0, 1]:
/// `sqrt(2 (p^(-(g - 1)/g) - 1) / (g - 1))`.
#[verifier::when_used_as_spec(calc_mach_from_pressure_ratio_spec)]
pub fn calc_mach_from_pressure_ratio(pressure_ratio: Fixed, specific_heat_ratio: Fixed) -> (r: Result<
    Fixed,
    IsentropicFlowError,
>)
    ensures
        r == calc_mach_from_pressure_ratio_spec(pressure_ratio, specific_heat_ratio),
{
    if !valid_specific_heat_ratio(specific_heat_ratio) {
        return Err(IsentropicFlowError::InvalidSpecificHeatRatio);
    }
    if outside_unit_interval(pressure_ratio) {
        return Err(IsentropicFlowError::InvalidPressureRatio);
    }
    let factor = Fixed::one().over(
        pressure_ratio.powf(specific_heat_ratio.minus(Fixed::one()).over(specific_heat_ratio)),
    );
    checked(mach_from_stagnation_factor(factor, specific_heat_ratio))
}

/// The value that `calc_mach_from_density_ratio` returns.
pub open spec fn calc_mach_from_density_ratio_spec(
    density_ratio: Fixed,
    specific_heat_ratio: Fixed,
) -> Result<Fixed, IsentropicFlowError> {
    if !valid_specific_heat_ratio(specific_heat_ratio) {
        Err(IsentropicFlowError::InvalidSpecificHeatRatio)
    } else if outside_unit_interval_spec(density_ratio) {
        Err(IsentropicFlowError::InvalidDensityRatio)
    } else {
        checked(
            mach_from_stagnation_factor_spec(
                Fixed::one().over(density_ratio.powf(specific_heat_ratio.minus(Fixed::one()))),
                specific_heat_ratio,
            ),
        )
    }
}

/// Mach number at a static-to-stagnation density ratio in (0, 1]:
/// `sqrt(2 (rho^(-(g - 1)) - 1) / (g - 1))`.
#[verifier::when_used_as_spec(calc_mach_from_density_ratio_spec)]
pub fn calc_mach_from_density_ratio(density_ratio: Fixed, specific_heat_ratio: Fixed) -> (r: Result<
    Fixed,
    IsentropicFlowError,
>)
    ensures
        r == calc_mach_from_density_ratio_spec(density_ratio, specific_heat_ratio),
{
    if !valid_specific_heat_ratio(specific_heat_ratio) {
        return Err(IsentropicFlowError::InvalidSpecificHeatRatio);
    }
    if outside_unit_interval(density_ratio) {
        return Err(IsentropicFlowError::InvalidDensityRatio);
    }
    let factor = Fixed::one().over(density_ratio.powf(specific_heat_ratio.minus(Fixed::one())));
    checked(mach_from_stagnation_factor(factor, specific_heat_ratio))
}

/// Raw representation of the value of `sqrt(M^2 - 1)` from which the
/// inversion of the Prandtl-Meyer function starts: one and a half.
pub const PRANDTL_MEYER_START_RAW: i64 = 0x180_0000_0000;

/// Residual of the Prandtl-Meyer inversion at `eta = sqrt(M^2 - 1)`, with
/// `alpha = sqrt((g + 1)/(g - 1))`: `alpha atan(eta / alpha) - atan(eta) - angle`.
pub open spec fn prandtl_meyer_residual_spec(alpha: Fixed, angle: Fixed, eta: Fixed) -> Fixed {
    alpha.times(eta.over(alpha).atan()).minus(eta.atan()).minus(angle)
}

#[verifier::when_used_as_spec(prandtl_meyer_residual_spec)]
fn prandtl_meyer_residual(alpha: Fixed, angle: Fixed, eta: Fixed) -> (r: Fixed)
    ensures
        r == prandtl_meyer_residual_spec(alpha, angle, eta),
{
    alpha.times(eta.over(alpha).atan()).minus(eta.atan()).minus(angle)
}

/// Derivative of [`prandtl_meyer_residual_spec`] in `eta`:
/// `1 / ((eta / alpha)^2 + 1) - 1 / (eta^2 + 1)`.
pub open spec fn prandtl_meyer_slope_spec(alpha: Fixed, eta: Fixed) -> Fixed {
    Fixed::one().over(eta.over(alpha).squared().plus(Fixed::one())).minus(
        Fixed::one().over(eta.squared().plus(Fixed::one())),
    )
}

#[verifier::when_used_as_spec(prandtl_meyer_slope_spec)]
fn prandtl_meyer_slope(alpha: Fixed, eta: Fixed) -> (r: Fixed)
    ensures
        r == prandtl_meyer_slope_spec(alpha, eta),
{
    Fixed::one().over(eta.over(alpha).squared().plus(Fixed::one())).minus(
        Fixed::one().over(eta.squared().plus(Fixed::one())),
    )
}

/// The constant `sqrt((g + 1)/(g - 1))` of the Prandtl-Meyer function.
pub open spec fn prandtl_meyer_alpha(specific_heat_ratio: Fixed) -> Fixed {
    specific_heat_ratio.plus(Fixed::one()).over(specific_heat_ratio.minus(Fixed::one())).sqrt()
}

/// Raw representation of the greatest `sqrt(M^2 - 1)` at which the
/// Prandtl-Meyer function is searched: 2048.
pub const PRANDTL_MEYER_TOP_RAW: i64 = 0x8_0000_0000_0000;

/// The residual of the Prandtl-Meyer inversion as a function of
/// `eta = sqrt(M^2 - 1)`.
pub open spec fn prandtl_meyer_residual_function(alpha: Fixed, angle: Fixed) -> spec_fn(
    Fixed,
) -> Fixed {
    |eta: Fixed| prandtl_meyer_residual_spec(alpha, angle, eta)
}

/// The search that finishes the inversion where Newton-Raphson did not
/// succeed: bisection on the residual between `eta` zero and `eta` 2048,
/// with the default tolerance and cap. The result is `eta`.
///
/// The residual has to be a number at both ends. An angle of zero gives
/// `eta` zero. A negative angle, and an angle that no `eta` up to 2048
/// reaches, is an invalid Prandtl-Meyer angle.
pub open spec fn prandtl_meyer_search_spec(alpha: Fixed, angle: Fixed) -> Result<
    Fixed,
    IsentropicFlowError,
> {
    let g = prandtl_meyer_residual_function(alpha, angle);
    let top = Fixed { bits: PRANDTL_MEYER_TOP_RAW };
    if !g(Fixed::zero()).defined() || !g(top).defined() {
        Err(IsentropicFlowError::DomainError)
    } else if g(Fixed::zero()) == Fixed::zero() {
        Ok(Fixed::zero())
    } else if g(Fixed::zero()).gt(Fixed::zero()) || g(top).le(Fixed::zero()) {
        Err(IsentropicFlowError::InvalidPrandtlMeyerAngle)
    } else {
        bisection_spec(g, Fixed::zero(), top, None, None)
    }
}

/// What the search returns. It never fails for want of iterations. An `eta`
/// that it returns lies between zero and 2048; unless it is zero, the
/// residual there, or half the bracket the search ended on, is smaller than
/// the default tolerance, and the residual has strictly opposite signs at
/// the two ends of that bracket.
pub proof fn lemma_prandtl_meyer_search(alpha: Fixed, angle: Fixed)
    ensures
        ({
            let top = Fixed { bits: PRANDTL_MEYER_TOP_RAW };
            let g = prandtl_meyer_residual_function(alpha, angle);
            let found = prandtl_meyer_search_spec(alpha, angle);
            let run = bisection_run(
                g,
                Fixed::zero(),
                top,
                tolerance_or_default(None),
                iterations_or_default(None),
            );
            &&& found != Err::<Fixed, IsentropicFlowError>(IsentropicFlowError::NonConvergence)
            &&& found matches Ok(eta) ==> {
                &&& Fixed::zero().le(eta)
                &&& eta.le(top)
                &&& g(Fixed::zero()) != Fixed::zero() ==> {
                    &&& g(eta).abs().lt(tolerance_or_default(None)) || run.upper.minus(
                        run.lower,
                    ).half().lt(tolerance_or_default(None))
                    &&& run.lower.le(eta)
                    &&& eta.le(run.upper)
                    &&& same_sign(g(run.lower), g(run.upper).neg())
                }
            }
        }),
{
    let top = Fixed { bits: PRANDTL_MEYER_TOP_RAW };
    let g = prandtl_meyer_residual_function(alpha, angle);
    let tol = tolerance_or_default(None);
    let cap = iterations_or_default(None);
    if g(Fixed::zero()).defined() && g(top).defined() && g(Fixed::zero()).lt(Fixed::zero()) && g(
        top,
    ).gt(Fixed::zero()) {
        lemma2_to64();
        lemma_bisection_root_bracketed(g, Fixed::zero(), top, tol, cap);
        lemma_bisection_decides_within(g, Fixed::zero(), top, tol, cap, 64);
        lemma_bisection_keeps_sign_change(g, Fixed::zero(), top, tol, cap);
    }
}

/// Evaluates [`prandtl_meyer_search_spec`].
fn prandtl_meyer_search(alpha: Fixed, angle: Fixed) -> (r: Result<Fixed, IsentropicFlowError>)
    ensures
        r == prandtl_meyer_search_spec(alpha, angle),
        r != Err::<Fixed, IsentropicFlowError>(IsentropicFlowError::NonConvergence),
{
    proof {
        lemma_prandtl_meyer_search(alpha, angle);
    }
    let top = Fixed { bits: PRANDTL_MEYER_TOP_RAW };
    let at_zero = prandtl_meyer_residual(alpha, angle, Fixed::zero());
    let at_top = prandtl_meyer_residual(alpha, angle, top);
    if !at_zero.is_defined() || !at_top.is_defined() {
        return Err(IsentropicFlowError::DomainError);
    }
    if at_zero == Fixed::zero() {
        return Ok(Fixed::zero());
    }
    if at_zero.gt(Fixed::zero()) || at_top.le(Fixed::zero()) {
        return Err(IsentropicFlowError::InvalidPrandtlMeyerAngle);
    }
    let f = |eta: Fixed| -> (y: Fixed)
        ensures
            y == prandtl_meyer_residual_spec(alpha, angle, eta),
        { prandtl_meyer_residual(alpha, angle, eta) };
    assert(computes(&f, prandtl_meyer_residual_function(alpha, angle)));
    bisection(&f, Fixed::zero(), top, None, None)
}

/// The value that `calc_mach_from_prandtl_meyer_angle` returns.
pub open spec fn calc_mach_from_prandtl_meyer_angle_spec(
    prandtl_meyer_angle: Fixed,
    specific_heat_ratio: Fixed,
) -> Result<Fixed, IsentropicFlowError> {
    if !valid_specific_heat_ratio(specific_heat_ratio) {
        Err(IsentropicFlowError::InvalidSpecificHeatRatio)
    } else if prandtl_meyer_angle.lt(Fixed::zero()) {
        Err(IsentropicFlowError::InvalidPrandtlMeyerAngle)
    } else {
        let alpha = prandtl_meyer_alpha(specific_heat_ratio);
        let eta = match newton_raphson_spec(
            |eta: Fixed| prandtl_meyer_residual_spec(alpha, prandtl_meyer_angle, eta),
            |eta: Fixed| prandtl_meyer_slope_spec(alpha, eta),
            Fixed { bits: PRANDTL_MEYER_START_RAW },
            None,
            None,
        ) {
            Ok(eta) => Ok(eta),
            Err(_) => prandtl_meyer_search_spec(alpha, prandtl_meyer_angle),
        };
        match eta {
            Ok(eta) => checked(eta.squared().plus(Fixed::one()).sqrt()),
            Err(e) => Err(e),
        }
    }
}

/// Mach number with a given Prandtl-Meyer angle: Newton-Raphson on
/// `eta = sqrt(M^2 - 1)` from one and a half, then `M = sqrt(eta^2 + 1)`.
///
/// At high Mach numbers the function is so flat that Newton-Raphson does not
/// settle within its tolerance; the inversion is then finished by
/// [`prandtl_meyer_search_spec`], a bisection. The call never fails for want
/// of iterations. A negative angle is an invalid Prandtl-Meyer angle, and so
/// is one beyond the reach of `eta` 2048.
#[verifier::when_used_as_spec(calc_mach_from_prandtl_meyer_angle_spec)]
pub fn calc_mach_from_prandtl_meyer_angle(
    prandtl_meyer_angle: Fixed,
    specific_heat_ratio: Fixed,
) -> (r: Result<Fixed, IsentropicFlowError>)
    ensures
        r == calc_mach_from_prandtl_meyer_angle_spec(prandtl_meyer_angle, specific_heat_ratio),
        r != Err::<Fixed, IsentropicFlowError>(IsentropicFlowError::NonConvergence),
{
    if !valid_specific_heat_ratio(specific_heat_ratio) {
        return Err(IsentropicFlowError::InvalidSpecificHeatRatio);
    }
    if prandtl_meyer_angle.lt(Fixed::zero()) {
        return Err(IsentropicFlowError::InvalidPrandtlMeyerAngle);
    }
    let alpha = specific_heat_ratio.plus(Fixed::one()).over(
        specific_heat_ratio.minus(Fixed::one()),
    ).sqrt();
    let f = |eta: Fixed| -> (y: Fixed)
        ensures
            y == prandtl_meyer_residual_spec(alpha, prandtl_meyer_angle, eta),
        { prandtl_meyer_residual(alpha, prandtl_meyer_angle, eta) };
    let df = |eta: Fixed| -> (y: Fixed)
        ensures
            y == prandtl_meyer_slope_spec(alpha, eta),
        { prandtl_meyer_slope(alpha, eta) };
    let ghost g = |eta: Fixed| prandtl_meyer_residual_spec(alpha, prandtl_meyer_angle, eta);
    let ghost dg = |eta: Fixed| prandtl_meyer_slope_spec(alpha, eta);
    assert(computes(&f, g));
    assert(computes(&df, dg));
    let eta = match newton_raphson(&f, &df, Fixed { bits: PRANDTL_MEYER_START_RAW }, None, None) {
        Ok(eta) => eta,
        Err(_) => prandtl_meyer_search(alpha, prandtl_meyer_angle)?,
    };
    checked(eta.squared().plus(Fixed::one()).sqrt())
}

/// The quantities of an isentropic flow state.
pub struct IsentropicFlowValues {
    /// Mach number.
    pub mach_number: Fixed,
    /// Mach angle, in radians.
    pub mach_angle: Fixed,
    /// Static over stagnation temperature.
    pub temperature_ratio: Fixed,
    /// Static over stagnation pressure.
    pub pressure_ratio: Fixed,
    /// Static over stagnation density.
    pub density_ratio: Fixed,
    /// Prandtl-Meyer angle, in radians.
    pub prandtl_meyer_angle: Fixed,
}

/// An isentropic flow state: a Mach number with every quantity that follows
/// from it. It is built whole by [`IsentropicFlow::from_mach`].
#[derive(Clone, Copy, Debug)]
pub struct IsentropicFlow {
    mach_number: Fixed,
    mach_angle: Fixed,
    temperature_ratio: Fixed,
    pressure_ratio: Fixed,
    density_ratio: Fixed,
    prandtl_meyer_angle: Fixed,
}

impl View for IsentropicFlow {
    type V = IsentropicFlowValues;

    closed spec fn view(&self) -> IsentropicFlowValues {
        IsentropicFlowValues {
            mach_number: self.mach_number,
            mach_angle: self.mach_angle,
            temperature_ratio: self.temperature_ratio,
            pressure_ratio: self.pressure_ratio,
            density_ratio: self.density_ratio,
            prandtl_meyer_angle: self.prandtl_meyer_angle,
        }
    }
}

/// A result with the value it holds taken by its view.
pub open spec fn flow_values(r: Result<IsentropicFlow, IsentropicFlowError>) -> Result<
    IsentropicFlowValues,
    IsentropicFlowError,
> {
    match r {
        Ok(v) => Ok(v@),
        Err(e) => Err(e),
    }
}

impl IsentropicFlowValues {
    /// What holds of every flow state that is built: each quantity is a
    /// number, the three ratios are positive and the Mach number is supersonic, as the Mach angle and the
    /// Prandtl-Meyer angle need it to be.
    pub open spec fn well_formed(self) -> bool {
        &&& self.mach_number.gt(Fixed::one())
        &&& self.mach_angle.defined()
        &&& self.temperature_ratio.gt(Fixed::zero())
        &&& self.pressure_ratio.gt(Fixed::zero())
        &&& self.density_ratio.gt(Fixed::zero())
        &&& self.prandtl_meyer_angle.defined()
    }
}

impl IsentropicFlow {
    /// The value that `from_mach` returns.
    pub open spec fn from_mach_spec(mach_number: Fixed, specific_heat_ratio: Fixed) -> Result<
        IsentropicFlowValues,
        IsentropicFlowError,
    > {
        let mach_angle = calc_mach_angle_from_mach_spec(mach_number);
        let temperature = calc_temperature_ratio_from_mach_spec(mach_number, specific_heat_ratio);
        let pressure = calc_pressure_ratio_from_mach_spec(mach_number, specific_heat_ratio);
        let density = calc_density_ratio_from_mach_spec(mach_number, specific_heat_ratio);
        let prandtl_meyer = prandtl_meyer_function_spec(mach_number, specific_heat_ratio);
        if !valid_specific_heat_ratio(specific_heat_ratio) {
            Err(IsentropicFlowError::InvalidSpecificHeatRatio)
        } else if mach_number.lt(Fixed::zero()) {
            Err(IsentropicFlowError::InvalidMachNumber)
        } else if mach_angle is Err {
            Err(mach_angle->Err_0)
        } else if temperature is Err {
            Err(temperature->Err_0)
        } else if pressure is Err {
            Err(pressure->Err_0)
        } else if density is Err {
            Err(density->Err_0)
        } else if prandtl_meyer is Err {
            Err(prandtl_meyer->Err_0)
        } else {
            Ok(
                IsentropicFlowValues {
                    mach_number,
                    mach_angle: mach_angle->Ok_0,
                    temperature_ratio: temperature->Ok_0,
                    pressure_ratio: pressure->Ok_0,
                    density_ratio: density->Ok_0,
                    prandtl_meyer_angle: prandtl_meyer->Ok_0,
                },
            )
        }
    }

    /// The flow state at `mach_number`: its Mach angle, its three
    /// static-to-stagnation ratios and its Prandtl-Meyer angle. The first
    /// quantity that cannot be had decides the error.
    pub fn from_mach(mach_number: Fixed, specific_heat_ratio: Fixed) -> (r: Result<
        IsentropicFlow,
        IsentropicFlowError,
    >)
        ensures
            flow_values(r) == Self::from_mach_spec(mach_number, specific_heat_ratio),
            r matches Ok(flow) ==> flow@.well_formed(),
    {
        if !valid_specific_heat_ratio(specific_heat_ratio) {
            return Err(IsentropicFlowError::InvalidSpecificHeatRatio);
        }
        if mach_number.lt(Fixed::zero()) {
            return Err(IsentropicFlowError::InvalidMachNumber);
        }
        let mach_angle = calc_mach_angle_from_mach(mach_number)?;
        let temperature_ratio = calc_temperature_ratio_from_mach(mach_number, specific_heat_ratio)?;
        let pressure_ratio = calc_pressure_ratio_from_mach(mach_number, specific_heat_ratio)?;
        let density_ratio = calc_density_ratio_from_mach(mach_number, specific_heat_ratio)?;
        let prandtl_meyer_angle = prandtl_meyer_function(mach_number, specific_heat_ratio)?;
        Ok(
            IsentropicFlow {
                mach_number,
                mach_angle,
                temperature_ratio,
                pressure_ratio,
                density_ratio,
                prandtl_meyer_angle,
            },
        )
    }

    /// The quantity that `output` names.
    pub open spec fn select(values: IsentropicFlowValues, output: Output) -> Fixed {
        match output {
            Output::MachNumber => values.mach_number,
            Output::MachAngle => values.mach_angle,
            Output::TemperatureRatio => values.temperature_ratio,
            Output::PressureRatio => values.pressure_ratio,
            Output::DensityRatio => values.density_ratio,
            Output::PrandtlMeyerAngle => values.prandtl_meyer_angle,
        }
    }

    /// The quantity that `output` names.
    pub fn get(&self, output: Output) -> (v: Fixed)
        ensures
            v == Self::select(self@, output),
    {
        match output {
            Output::MachNumber => self.mach_number,
            Output::MachAngle => self.mach_angle,
            Output::TemperatureRatio => self.temperature_ratio,
            Output::PressureRatio => self.pressure_ratio,
            Output::DensityRatio => self.density_ratio,
            Output::PrandtlMeyerAngle => self.prandtl_meyer_angle,
        }
    }
}

/// The Mach number at which the flow has the quantity that `input` gives.
pub open spec fn mach_of_input_spec(input: Input, specific_heat_ratio: Fixed) -> Result<
    Fixed,
    IsentropicFlowError,
> {
    match input {
        Input::MachNumber(value) => Ok(value),
        Input::MachAngle(value) => calc_mach_from_mach_angle_spec(value),
        Input::TemperatureRatio(value) => calc_mach_from_temperature_ratio_spec(
            value,
            specific_heat_ratio,
        ),
        Input::PressureRatio(value) => calc_mach_from_pressure_ratio_spec(value, specific_heat_ratio),
        Input::DensityRatio(value) => calc_mach_from_density_ratio_spec(value, specific_heat_ratio),
        Input::PrandtlMeyerAngle(value) => calc_mach_from_prandtl_meyer_angle_spec(
            value,
            specific_heat_ratio,
        ),
    }
}

/// The specific-heat ratio in force for a call.
pub open spec fn specific_heat_ratio_or_default(specific_heat_ratio: Option<Fixed>) -> Fixed {
    match specific_heat_ratio {
        Some(g) => g,
        None => default_specific_heat_ratio_spec(),
    }
}

/// The value that `calculate` returns.
pub open spec fn calculate_spec(
    output: Output,
    input: Input,
    specific_heat_ratio: Option<Fixed>,
) -> Result<Fixed, IsentropicFlowError> {
    let g = specific_heat_ratio_or_default(specific_heat_ratio);
    let mach = mach_of_input_spec(input, g);
    if !valid_specific_heat_ratio(g) {
        Err(IsentropicFlowError::InvalidSpecificHeatRatio)
    } else if mach is Err {
        Err(mach->Err_0)
    } else {
        match IsentropicFlow::from_mach_spec(mach->Ok_0, g) {
            Ok(values) => Ok(IsentropicFlow::select(values, output)),
            Err(e) => Err(e),
        }
    }
}

/// One quantity of the isentropic flow state that has the quantity `input`:
/// the Mach number is recovered from the input, the state is built at that
/// Mach number, and `output` is read from it. The specific-heat ratio
/// defaults to that of air.
pub fn calculate(output: Output, input: Input, specific_heat_ratio: Option<Fixed>) -> (r: Result<
    Fixed,
    IsentropicFlowError,
>)
    ensures
        r == calculate_spec(output, input, specific_heat_ratio),
{
    let specific_heat_ratio = match specific_heat_ratio {
        Some(g) => g,
        None => default_specific_heat_ratio(),
    };
    if !valid_specific_heat_ratio(specific_heat_ratio) {
        return Err(IsentropicFlowError::InvalidSpecificHeatRatio);
    }
    let mach_number = match input {
        Input::MachNumber(value) => value,
        Input::MachAngle(value) => calc_mach_from_mach_angle(value)?,
        Input::TemperatureRatio(value) => calc_mach_from_temperature_ratio(
            value,
            specific_heat_ratio,
        )?,
        Input::PressureRatio(value) => calc_mach_from_pressure_ratio(value, specific_heat_ratio)?,
        Input::DensityRatio(value) => calc_mach_from_density_ratio(value, specific_heat_ratio)?,
        Input::PrandtlMeyerAngle(value) => calc_mach_from_prandtl_meyer_angle(
            value,
            specific_heat_ratio,
        )?,
    };
    let isentropic = IsentropicFlow::from_mach(mach_number, specific_heat_ratio)?;
    Ok(isentropic.get(output))
}

} // verus!
