//! Conical supersonic flow by the Taylor-Maccoll equation.

use vstd::prelude::*;
use crate::fixed::{from_wide, round_div, round_div_wide, Fixed};
use crate::wide::{narrow, sine, sine_spec, Wide, GUARD, HALF_PI_WIDE};
use crate::isentropic::{
    calc_density_ratio_from_mach, calc_density_ratio_from_mach_spec, calc_mach_angle_from_mach,
    calc_mach_angle_from_mach_spec, calc_pressure_ratio_from_mach,
    calc_pressure_ratio_from_mach_spec, calc_temperature_ratio_from_mach,
    calc_temperature_ratio_from_mach_spec, checked, positive, valid_specific_heat_ratio,
    IsentropicFlowError,
};
use crate::obliqueshock::{
    calc_deflection_angle, calc_deflection_angle_spec, calc_density_ratio, calc_density_ratio_spec,
    calc_downstream_mach_from_shock_angle, calc_downstream_mach_from_shock_angle_spec,
    calc_pressure_ratio, calc_pressure_ratio_spec, calc_stagnation_pressure_ratio,
    calc_stagnation_pressure_ratio_spec, calc_temperature_ratio, calc_temperature_ratio_spec,
};
use crate::numerics::{bisection, bisection_spec, computes, tolerance_or_default};
use crate::numerics::{
    computes_slope, default_tolerance, rk4_step_spec, runge_kutta_fourth_order_step, total_slope,
};

verus! {

/// One of the quantities a caller knows about the flow over a cone.
#[derive(Clone, Copy, Debug)]
pub enum Input {
    UpstreamMach(Fixed),
    ConeAngle(Fixed),
    ShockAngle(Fixed),
    SurfaceMachNumber(Fixed),
}

/// The quantity a caller asks for.
#[derive(Clone, Copy, Debug)]
pub enum Output {
    SurfaceMachNumber,
    ConeAngle,
    ShockAngle,
    ShockTurnAngle,
    PressureRatio,
    DensityRatio,
    TemperatureRatio,
    StagnationPressureRatio,
    SurfacePressureRatio,
    SurfaceDensityRatio,
    SurfaceTemperatureRatio,
    SurfaceStagnationPressureratio,
}

/// Number of integration steps used when a caller gives none.
pub const DEFAULT_STEPS: i32 = 4000;

/// Raw representation of the number one in the numbers with twelve guard
/// bits on which the derivative is evaluated: two to the power 52.
pub const GUARDED_SCALE: i128 = 0x10_0000_0000_0000;

/// Raw units with twelve guard bits in one raw unit of a `Fixed`.
pub const GUARDED_UNIT: i128 = 0x1000;

/// A fixed-point number with twelve guard bits appended.
pub open spec fn guarded_spec(v: Fixed) -> Wide {
    if v.defined() {
        Wide::wrap(v.raw() * GUARDED_UNIT)
    } else {
        Wide { bits: i128::MIN }
    }
}

fn guarded(v: Fixed) -> (w: Wide)
    ensures
        w == guarded_spec(v),
{
    if v.is_defined() {
        narrow(v.to_raw() as i128 * GUARDED_UNIT)
    } else {
        Wide { bits: i128::MIN }
    }
}

/// The derivative of the tangential velocity with twelve guard bits: each
/// operation of the formula of [`tangential_derivative_spec`] is rounded at
/// the fifty-second fractional bit, and the quotient by the tangent is the
/// tangential velocity times the cosine over the sine with sixty fractional
/// bits, rounded once. Undefined when a value leaves the range, which ends
/// near 2048.
pub open spec fn guarded_tangential_derivative_spec(
    radial_velocity: Fixed,
    tangential_velocity: Fixed,
    theta: Fixed,
    specific_heat_ratio: Fixed,
) -> Wide {
    let one = Wide { bits: GUARDED_SCALE };
    let vr = guarded_spec(radial_velocity);
    let vt = guarded_spec(tangential_velocity);
    let c = guarded_spec(specific_heat_ratio).minus(one).div_int(2);
    let vt_squared = vt.times_at(vt, GUARDED_SCALE);
    let e = one.minus(vr.times_at(vr, GUARDED_SCALE)).minus(vt_squared);
    let ce = c.times_at(e, GUARDED_SCALE);
    let over_tangent = if theta.defined() {
        vt.times_over(sine_spec(theta.raw() * GUARD + HALF_PI_WIDE), sine_spec(theta.raw() * GUARD))
    } else {
        Wide { bits: i128::MIN }
    };
    let numerator = vt_squared.times_at(vr, GUARDED_SCALE).minus(
        ce.times_at(vr.plus(vr).plus(over_tangent), GUARDED_SCALE),
    );
    let denominator = ce.minus(vt_squared);
    numerator.times_over(one, denominator)
}

fn guarded_tangential_derivative(
    radial_velocity: Fixed,
    tangential_velocity: Fixed,
    theta: Fixed,
    specific_heat_ratio: Fixed,
) -> (d: Wide)
    ensures
        d == guarded_tangential_derivative_spec(
            radial_velocity,
            tangential_velocity,
            theta,
            specific_heat_ratio,
        ),
{
    let one = Wide { bits: GUARDED_SCALE };
    let vr = guarded(radial_velocity);
    let vt = guarded(tangential_velocity);
    let c = guarded(specific_heat_ratio).minus(one).div_int(2);
    let vt_squared = vt.times_at(vt, GUARDED_SCALE);
    let e = one.minus(vr.times_at(vr, GUARDED_SCALE)).minus(vt_squared);
    let ce = c.times_at(e, GUARDED_SCALE);
    let over_tangent = if theta.is_defined() {
        let angle: i128 = theta.to_raw() as i128 * GUARD;
        vt.times_over(sine(angle + HALF_PI_WIDE), sine(angle))
    } else {
        Wide { bits: i128::MIN }
    };
    let numerator = vt_squared.times_at(vr, GUARDED_SCALE).minus(
        ce.times_at(vr.plus(vr).plus(over_tangent), GUARDED_SCALE),
    );
    let denominator = ce.minus(vt_squared);
    numerator.times_over(one, denominator)
}

/// The formula of the derivative on fixed-point numbers, each operation
/// rounded at the fortieth fractional bit.
pub open spec fn plain_tangential_derivative_spec(
    radial_velocity: Fixed,
    tangential_velocity: Fixed,
    theta: Fixed,
    specific_heat_ratio: Fixed,
) -> Fixed {
    let c = specific_heat_ratio.minus(Fixed::one()).half();
    let e = Fixed::one().minus(radial_velocity.squared()).minus(tangential_velocity.squared());
    let denominator = c.times(e).minus(tangential_velocity.squared());
    let numerator = tangential_velocity.squared().times(radial_velocity).minus(
        c.times(e).times(radial_velocity.twice().plus(tangential_velocity.over_tan(theta))),
    );
    numerator.over(denominator)
}

/// Derivative of the tangential velocity in the Taylor-Maccoll equation. With
/// `c = (g - 1)/2` and `e = 1 - vr^2 - vt^2` it is
/// `(vt^2 vr - c e (2 vr + vt / tan(theta))) / (c e - vt^2)`.
///
/// The formula is evaluated with twelve guard bits and rounded once, see
/// [`guarded_tangential_derivative_spec`]; where a value leaves the range of
/// the guarded numbers it is evaluated on the fixed-point numbers themselves.
pub open spec fn tangential_derivative_spec(
    radial_velocity: Fixed,
    tangential_velocity: Fixed,
    theta: Fixed,
    specific_heat_ratio: Fixed,
) -> Fixed {
    let guarded = guarded_tangential_derivative_spec(
        radial_velocity,
        tangential_velocity,
        theta,
        specific_heat_ratio,
    );
    if guarded.defined() {
        Fixed::wrap(round_div(guarded.bits as int, GUARDED_UNIT as int))
    } else {
        plain_tangential_derivative_spec(
            radial_velocity,
            tangential_velocity,
            theta,
            specific_heat_ratio,
        )
    }
}

#[verifier::when_used_as_spec(tangential_derivative_spec)]
fn tangential_derivative(
    radial_velocity: Fixed,
    tangential_velocity: Fixed,
    theta: Fixed,
    specific_heat_ratio: Fixed,
) -> (d: Fixed)
    ensures
        d == tangential_derivative_spec(
            radial_velocity,
            tangential_velocity,
            theta,
            specific_heat_ratio,
        ),
{
    let guarded = guarded_tangential_derivative(
        radial_velocity,
        tangential_velocity,
        theta,
        specific_heat_ratio,
    );
    if guarded.in_range() {
        return from_wide(round_div_wide(guarded.bits, GUARDED_UNIT));
    }
    let c = specific_heat_ratio.minus(Fixed::one()).half();
    let e = Fixed::one().minus(radial_velocity.squared()).minus(tangential_velocity.squared());
    let denominator = c.times(e).minus(tangential_velocity.squared());
    let numerator = tangential_velocity.squared().times(radial_velocity).minus(
        c.times(e).times(radial_velocity.twice().plus(tangential_velocity.over_tan(theta))),
    );
    numerator.over(denominator)
}

/// The value that `taylor_maccoll` returns.
pub open spec fn taylor_maccoll_spec(
    velocity_vector: (Fixed, Fixed),
    theta: Fixed,
    specific_heat_ratio: Fixed,
) -> Result<(Fixed, Fixed), IsentropicFlowError> {
    let derivative = tangential_derivative_spec(
        velocity_vector.0,
        velocity_vector.1,
        theta,
        specific_heat_ratio,
    );
    if !valid_specific_heat_ratio(specific_heat_ratio) {
        Err(IsentropicFlowError::InvalidSpecificHeatRatio)
    } else if !velocity_vector.1.defined() || !derivative.defined() {
        Err(IsentropicFlowError::DomainError)
    } else {
        Ok((velocity_vector.1, derivative))
    }
}

/// The Taylor-Maccoll equation: the derivatives in the polar angle of the
/// radial and the tangential velocity at `theta`. The first is the tangential
/// velocity itself, the second [`tangential_derivative_spec`].
#[verifier::when_used_as_spec(taylor_maccoll_spec)]
pub fn taylor_maccoll(velocity_vector: (Fixed, Fixed), theta: Fixed, specific_heat_ratio: Fixed) -> (r:
    Result<(Fixed, Fixed), IsentropicFlowError>)
    ensures
        r == taylor_maccoll_spec(velocity_vector, theta, specific_heat_ratio),
{
    if !valid_specific_heat_ratio(specific_heat_ratio) {
        return Err(IsentropicFlowError::InvalidSpecificHeatRatio);
    }
    let derivative = tangential_derivative(
        velocity_vector.0,
        velocity_vector.1,
        theta,
        specific_heat_ratio,
    );
    if !velocity_vector.1.is_defined() || !derivative.is_defined() {
        return Err(IsentropicFlowError::DomainError);
    }
    Ok((velocity_vector.1, derivative))
}

/// The tangential derivative as a function of angle and the two velocities,
/// in the order in which the Runge-Kutta step hands them over.
pub open spec fn slope_function(specific_heat_ratio: Fixed) -> spec_fn(Fixed, Fixed, Fixed) -> Fixed {
    |theta: Fixed, radial_velocity: Fixed, tangential_velocity: Fixed|
        tangential_derivative_spec(radial_velocity, tangential_velocity, theta, specific_heat_ratio)
}

/// The velocities one Runge-Kutta step of size `h` after `velocity` at `theta`.
#[verifier::opaque]
pub open spec fn next_velocity(
    specific_heat_ratio: Fixed,
    velocity: (Fixed, Fixed),
    theta: Fixed,
    h: Fixed,
) -> (Fixed, Fixed) {
    rk4_step_spec(slope_function(specific_heat_ratio), theta, velocity.0, velocity.1, h)
}

/// Whether the sample one step after `(velocity, theta)` is a number in each
/// of its three parts.
pub open spec fn next_sample_defined(
    specific_heat_ratio: Fixed,
    velocity: (Fixed, Fixed),
    theta: Fixed,
    h: Fixed,
) -> bool {
    let next = next_velocity(specific_heat_ratio, velocity, theta, h);
    next.0.defined() && next.1.defined() && theta.plus(h).defined()
}

/// The march from the last sample of a trace, `steps` steps at most.
///
/// Each step takes the tentative next sample. If it is undefined the march
/// fails with a domain error. If the march stops at the wall and the
/// tentative tangential velocity is no longer negative, the trace is complete
/// as it stands: the tentative sample is not kept. Otherwise the sample is
/// appended. When the steps run out, a march that stops at the wall has found
/// no crossing and fails; one that does not is complete.
pub open spec fn march_spec(
    specific_heat_ratio: Fixed,
    velocities: Seq<(Fixed, Fixed)>,
    thetas: Seq<Fixed>,
    h: Fixed,
    stop_integration_at_wall: bool,
    steps: nat,
) -> Result<(Seq<(Fixed, Fixed)>, Seq<Fixed>), IsentropicFlowError>
    decreases steps,
{
    let next = next_velocity(specific_heat_ratio, velocities.last(), thetas.last(), h);
    if steps == 0 {
        if stop_integration_at_wall {
            Err(IsentropicFlowError::UndeterminedCrossing)
        } else {
            Ok((velocities, thetas))
        }
    } else if !next_sample_defined(specific_heat_ratio, velocities.last(), thetas.last(), h) {
        Err(IsentropicFlowError::DomainError)
    } else if stop_integration_at_wall && next.1.ge(Fixed::zero()) {
        Ok((velocities, thetas))
    } else {
        march_spec(
            specific_heat_ratio,
            velocities.push(next),
            thetas.push(thetas.last().plus(h)),
            h,
            stop_integration_at_wall,
            (steps - 1) as nat,
        )
    }
}

/// The step count in force for a call.
pub open spec fn steps_or_default(steps: Option<i32>) -> i32 {
    match steps {
        Some(n) => n,
        None => DEFAULT_STEPS,
    }
}

/// The number of steps that a step count allows: none for a count that is
/// not positive.
pub open spec fn steps_allowed(steps: Option<i32>) -> nat {
    if steps_or_default(steps) > 0 {
        steps_or_default(steps) as nat
    } else {
        0
    }
}

/// The step size: the interval divided by the number of steps.
pub open spec fn step_size(initial_angle: Fixed, final_angle: Fixed, steps: i32) -> Fixed {
    final_angle.minus(initial_angle).div_int(steps as i64)
}

/// What [`solve_taylor_maccoll`] returns, as sequences.
pub open spec fn solve_taylor_maccoll_spec(
    initial_velocity_vector: (Fixed, Fixed),
    initial_angle: Fixed,
    final_angle: Fixed,
    specific_heat_ratio: Fixed,
    stop_integration_at_wall: bool,
    steps: Option<i32>,
) -> Result<(Seq<(Fixed, Fixed)>, Seq<Fixed>), IsentropicFlowError> {
    let count = steps_or_default(steps);
    let h = step_size(initial_angle, final_angle, count);
    if !valid_specific_heat_ratio(specific_heat_ratio) {
        Err(IsentropicFlowError::InvalidSpecificHeatRatio)
    } else if !initial_velocity_vector.0.defined() || !initial_velocity_vector.1.defined()
        || !initial_angle.defined() {
        Err(IsentropicFlowError::DomainError)
    } else if count <= 0 {
        if stop_integration_at_wall {
            Err(IsentropicFlowError::UndeterminedCrossing)
        } else {
            Ok((seq![initial_velocity_vector], seq![initial_angle]))
        }
    } else if !h.defined() || h == Fixed::zero() {
        Err(IsentropicFlowError::DomainError)
    } else {
        march_spec(
            specific_heat_ratio,
            seq![initial_velocity_vector],
            seq![initial_angle],
            h,
            stop_integration_at_wall,
            count as nat,
        )
    }
}

/// A trace as the march builds it: as many angles as velocities and at least
/// one, every part of every sample a number, each angle one step from the one
/// before, each velocity one Runge-Kutta step from the one before, and, when
/// the march stops at the wall, every sample after the first with a negative
/// tangential velocity.
pub open spec fn trace_invariant(
    specific_heat_ratio: Fixed,
    velocities: Seq<(Fixed, Fixed)>,
    thetas: Seq<Fixed>,
    h: Fixed,
    stop_integration_at_wall: bool,
) -> bool {
    &&& velocities.len() == thetas.len()
    &&& velocities.len() >= 1
    &&& forall|i: int|
        0 <= i < velocities.len() ==> (#[trigger] velocities[i]).0.defined()
            && velocities[i].1.defined()
    &&& forall|i: int| 0 <= i < thetas.len() ==> (#[trigger] thetas[i]).defined()
    &&& forall|i: int| 0 < i < thetas.len() ==> #[trigger] thetas[i] == thetas[i - 1].plus(h)
    &&& forall|i: int|
        0 < i < velocities.len() ==> #[trigger] velocities[i] == next_velocity(
            specific_heat_ratio,
            velocities[i - 1],
            thetas[i - 1],
            h,
        )
    &&& stop_integration_at_wall ==> forall|i: int|
        0 < i < velocities.len() ==> (#[trigger] velocities[i]).1.lt(Fixed::zero())
}

/// What holds of the trace that a march returns, given the trace it started
/// from: it extends that trace by at most `steps` samples and keeps the
/// [`trace_invariant`]. A march that stops at the wall ends just before the
/// crossing: one more step from its last sample is defined and has a
/// tangential velocity that is not negative. A march that does not stop
/// takes every step.
#[verifier::rlimit(50)]
pub proof fn lemma_march_trace(
    specific_heat_ratio: Fixed,
    velocities: Seq<(Fixed, Fixed)>,
    thetas: Seq<Fixed>,
    h: Fixed,
    stop_integration_at_wall: bool,
    steps: nat,
)
    requires
        trace_invariant(specific_heat_ratio, velocities, thetas, h, stop_integration_at_wall),
    ensures
        match march_spec(
            specific_heat_ratio,
            velocities,
            thetas,
            h,
            stop_integration_at_wall,
            steps,
        ) {
            Ok((v, t)) => {
                &&& trace_invariant(specific_heat_ratio, v, t, h, stop_integration_at_wall)
                &&& velocities.len() <= v.len() <= velocities.len() + steps
                &&& v.subrange(0, velocities.len() as int) == velocities
                &&& t.subrange(0, thetas.len() as int) == thetas
                &&& stop_integration_at_wall ==> next_sample_defined(
                    specific_heat_ratio,
                    v.last(),
                    t.last(),
                    h,
                ) && next_velocity(specific_heat_ratio, v.last(), t.last(), h).1.ge(Fixed::zero())
                &&& !stop_integration_at_wall ==> v.len() == velocities.len() + steps
            },
            Err(_) => true,
        },
    decreases steps,
{
    let next = next_velocity(specific_heat_ratio, velocities.last(), thetas.last(), h);
    if steps == 0 {
        assert(velocities.subrange(0, velocities.len() as int) == velocities);
        assert(thetas.subrange(0, thetas.len() as int) == thetas);
    } else if !next_sample_defined(specific_heat_ratio, velocities.last(), thetas.last(), h) {
    } else if stop_integration_at_wall && next.1.ge(Fixed::zero()) {
        assert(velocities.subrange(0, velocities.len() as int) == velocities);
        assert(thetas.subrange(0, thetas.len() as int) == thetas);
    } else {
        let longer_v = velocities.push(next);
        let longer_t = thetas.push(thetas.last().plus(h));
        assert(trace_invariant(specific_heat_ratio, longer_v, longer_t, h, stop_integration_at_wall));
        lemma_march_trace(
            specific_heat_ratio,
            longer_v,
            longer_t,
            h,
            stop_integration_at_wall,
            (steps - 1) as nat,
        );
        match march_spec(
            specific_heat_ratio,
            longer_v,
            longer_t,
            h,
            stop_integration_at_wall,
            (steps - 1) as nat,
        ) {
            Ok((v, t)) => {
                assert(v.subrange(0, velocities.len() as int) == v.subrange(
                    0,
                    longer_v.len() as int,
                ).subrange(0, velocities.len() as int));
                assert(t.subrange(0, thetas.len() as int) == t.subrange(
                    0,
                    longer_t.len() as int,
                ).subrange(0, thetas.len() as int));
                assert(longer_v.subrange(0, velocities.len() as int) == velocities);
                assert(longer_t.subrange(0, thetas.len() as int) == thetas);
            },
            Err(_) => {},
        }
    }
}

/// The angles of a trace are strictly monotone: with a positive step each is
/// greater than every one before it, with a negative step smaller.
pub proof fn lemma_angles_strictly_monotone(
    specific_heat_ratio: Fixed,
    velocities: Seq<(Fixed, Fixed)>,
    thetas: Seq<Fixed>,
    h: Fixed,
    stop_integration_at_wall: bool,
    i: int,
    j: int,
)
    requires
        trace_invariant(specific_heat_ratio, velocities, thetas, h, stop_integration_at_wall),
        h.defined(),
        h != Fixed::zero(),
        0 <= i < j < thetas.len(),
    ensures
        h.gt(Fixed::zero()) ==> thetas[i].lt(thetas[j]),
        h.lt(Fixed::zero()) ==> thetas[i].gt(thetas[j]),
    decreases j - i,
{
    assert(thetas[j] == thetas[j - 1].plus(h));
    assert(thetas[j].defined() && thetas[j - 1].defined());
    if i < j - 1 {
        lemma_angles_strictly_monotone(
            specific_heat_ratio,
            velocities,
            thetas,
            h,
            stop_integration_at_wall,
            i,
            j - 1,
        );
    }
}

/// The sequences that a result of [`solve_taylor_maccoll`] holds.
pub open spec fn trace_view(
    r: Result<(Vec<(Fixed, Fixed)>, Vec<Fixed>), IsentropicFlowError>,
) -> Result<(Seq<(Fixed, Fixed)>, Seq<Fixed>), IsentropicFlowError> {
    match r {
        Ok((velocities, thetas)) => Ok((velocities@, thetas@)),
        Err(e) => Err(e),
    }
}

/// What holds of every trace that [`solve_taylor_maccoll_spec`] returns: it
/// starts at the initial sample, keeps the [`trace_invariant`], has at most
/// one sample more than there are steps (none for a step count that is not
/// positive), and exactly that many when the march does not stop at the wall; its angles are strictly monotone; and when the
/// march stops at the wall, one more step from the last sample has a
/// tangential velocity that is not negative, while the last sample itself has
/// a negative one provided that the initial sample has.
pub open spec fn trace_laws(
    initial_velocity_vector: (Fixed, Fixed),
    initial_angle: Fixed,
    final_angle: Fixed,
    specific_heat_ratio: Fixed,
    stop_integration_at_wall: bool,
    steps: Option<i32>,
    velocities: Seq<(Fixed, Fixed)>,
    thetas: Seq<Fixed>,
) -> bool {
    let h = step_size(initial_angle, final_angle, steps_or_default(steps));
    &&& trace_invariant(specific_heat_ratio, velocities, thetas, h, stop_integration_at_wall)
    &&& velocities[0] == initial_velocity_vector
    &&& thetas[0] == initial_angle
    &&& velocities.len() <= steps_allowed(steps) + 1
    &&& !stop_integration_at_wall ==> velocities.len() == steps_allowed(steps) + 1
    &&& forall|i: int, j: int|
        0 <= i < j < thetas.len() ==> if h.gt(Fixed::zero()) {
            (#[trigger] thetas[i]).lt(#[trigger] thetas[j])
        } else {
            thetas[i].gt(thetas[j])
        }
    &&& stop_integration_at_wall ==> next_velocity(
        specific_heat_ratio,
        velocities.last(),
        thetas.last(),
        h,
    ).1.ge(Fixed::zero())
    &&& stop_integration_at_wall && initial_velocity_vector.1.lt(Fixed::zero())
        ==> velocities.last().1.lt(Fixed::zero())
}

/// Every trace that the integration returns obeys the [`trace_laws`].
#[verifier::rlimit(50)]
pub proof fn lemma_solve_trace_laws(
    initial_velocity_vector: (Fixed, Fixed),
    initial_angle: Fixed,
    final_angle: Fixed,
    specific_heat_ratio: Fixed,
    stop_integration_at_wall: bool,
    steps: Option<i32>,
)
    ensures
        match solve_taylor_maccoll_spec(
            initial_velocity_vector,
            initial_angle,
            final_angle,
            specific_heat_ratio,
            stop_integration_at_wall,
            steps,
        ) {
            Ok((velocities, thetas)) => trace_laws(
                initial_velocity_vector,
                initial_angle,
                final_angle,
                specific_heat_ratio,
                stop_integration_at_wall,
                steps,
                velocities,
                thetas,
            ),
            Err(_) => true,
        },
{
    let count = steps_or_default(steps);
    let h = step_size(initial_angle, final_angle, count);
    let start_velocities = seq![initial_velocity_vector];
    let start_thetas = seq![initial_angle];
    match solve_taylor_maccoll_spec(
        initial_velocity_vector,
        initial_angle,
        final_angle,
        specific_heat_ratio,
        stop_integration_at_wall,
        steps,
    ) {
        Ok((v, t)) => {
            assert(trace_invariant(
                specific_heat_ratio,
                start_velocities,
                start_thetas,
                h,
                stop_integration_at_wall,
            ));
            if count > 0 {
                lemma_march_trace(
                    specific_heat_ratio,
                    start_velocities,
                    start_thetas,
                    h,
                    stop_integration_at_wall,
                    count as nat,
                );
                assert(v[0] == v.subrange(0, 1)[0]);
                assert(t[0] == t.subrange(0, 1)[0]);
                assert forall|i: int, j: int| 0 <= i < j < t.len() implies if h.gt(Fixed::zero()) {
                    (#[trigger] t[i]).lt(#[trigger] t[j])
                } else {
                    t[i].gt(t[j])
                } by {
                    lemma_angles_strictly_monotone(
                        specific_heat_ratio,
                        v,
                        t,
                        h,
                        stop_integration_at_wall,
                        i,
                        j,
                    );
                }
            } else {
                assert(v == start_velocities && t == start_thetas);
            }
        },
        Err(_) => {},
    }
}

/// Integrates the Taylor-Maccoll equation by Runge-Kutta steps from
/// `initial_angle` towards `final_angle` and returns the velocities and the
/// angles of the samples it kept, the initial one first.
///
/// The step is the interval divided by `steps`, which defaults to
/// [`DEFAULT_STEPS`]. A step count that is not positive takes no step: the
/// trace is the initial sample alone. With `stop_integration_at_wall` the march ends before
/// the first sample whose tangential velocity is not negative, and fails with
/// `UndeterminedCrossing` when there is none within the steps. The result is
/// exactly [`solve_taylor_maccoll_spec`], and a returned trace obeys the
/// [`trace_laws`]: as many angles as velocities, at most one more than the
/// number of steps; strictly monotone angles; and, when the march stops at the
/// wall, a negative tangential velocity at every sample after the first,
/// while one more step from the last sample would not have one.
pub fn solve_taylor_maccoll(
    initial_velocity_vector: (Fixed, Fixed),
    initial_angle: Fixed,
    final_angle: Fixed,
    specific_heat_ratio: Fixed,
    stop_integration_at_wall: bool,
    steps: Option<i32>,
) -> (r: Result<(Vec<(Fixed, Fixed)>, Vec<Fixed>), IsentropicFlowError>)
    ensures
        trace_view(r) == solve_taylor_maccoll_spec(
            initial_velocity_vector,
            initial_angle,
            final_angle,
            specific_heat_ratio,
            stop_integration_at_wall,
            steps,
        ),
        r matches Ok((velocities, thetas)) ==> trace_laws(
            initial_velocity_vector,
            initial_angle,
            final_angle,
            specific_heat_ratio,
            stop_integration_at_wall,
            steps,
            velocities@,
            thetas@,
        ),
{
    proof {
        lemma_solve_trace_laws(
            initial_velocity_vector,
            initial_angle,
            final_angle,
            specific_heat_ratio,
            stop_integration_at_wall,
            steps,
        );
    }
    if !valid_specific_heat_ratio(specific_heat_ratio) {
        return Err(IsentropicFlowError::InvalidSpecificHeatRatio);
    }
    let count: i32 = match steps {
        Some(n) => n,
        None => DEFAULT_STEPS,
    };
    let h = final_angle.minus(initial_angle).div_int(count as i64);
    if !initial_velocity_vector.0.is_defined() || !initial_velocity_vector.1.is_defined()
        || !initial_angle.is_defined() {
        return Err(IsentropicFlowError::DomainError);
    }
    if count <= 0 {
        return march(
            initial_velocity_vector,
            initial_angle,
            h,
            specific_heat_ratio,
            stop_integration_at_wall,
            0,
        );
    }
    if !h.is_defined() || h == Fixed::zero() {
        return Err(IsentropicFlowError::DomainError);
    }
    march(initial_velocity_vector, initial_angle, h, specific_heat_ratio, stop_integration_at_wall, count)
}

/// The marching loop of [`solve_taylor_maccoll`].
fn march(
    initial_velocity_vector: (Fixed, Fixed),
    initial_angle: Fixed,
    h: Fixed,
    specific_heat_ratio: Fixed,
    stop_integration_at_wall: bool,
    count: i32,
) -> (r: Result<(Vec<(Fixed, Fixed)>, Vec<Fixed>), IsentropicFlowError>)
    requires
        count >= 0,
    ensures
        trace_view(r) == march_spec(
            specific_heat_ratio,
            seq![initial_velocity_vector],
            seq![initial_angle],
            h,
            stop_integration_at_wall,
            count as nat,
        ),
{
    let slope = |theta: Fixed, radial_velocity: Fixed, tangential_velocity: Fixed| -> (d: Fixed)
        ensures
            d == tangential_derivative_spec(
                radial_velocity,
                tangential_velocity,
                theta,
                specific_heat_ratio,
            ),
        { tangential_derivative(radial_velocity, tangential_velocity, theta, specific_heat_ratio) };
    assert(computes_slope(&slope, slope_function(specific_heat_ratio)));
    let mut velocity_components: Vec<(Fixed, Fixed)> = Vec::new();
    let mut thetas: Vec<Fixed> = Vec::new();
    velocity_components.push(initial_velocity_vector);
    thetas.push(initial_angle);
    assert(velocity_components@ == seq![initial_velocity_vector]);
    assert(thetas@ == seq![initial_angle]);
    let mut current_velocity = initial_velocity_vector;
    let mut current_theta = initial_angle;
    let mut done: i32 = 0;
    while done < count
        invariant
            0 <= done <= count,
            total_slope(&slope),
            computes_slope(&slope, slope_function(specific_heat_ratio)),
            velocity_components@.len() == done + 1,
            thetas@.len() == done + 1,
            current_velocity == velocity_components@.last(),
            current_theta == thetas@.last(),
            march_spec(
                specific_heat_ratio,
                velocity_components@,
                thetas@,
                h,
                stop_integration_at_wall,
                (count - done) as nat,
            ) == march_spec(
                specific_heat_ratio,
                seq![initial_velocity_vector],
                seq![initial_angle],
                h,
                stop_integration_at_wall,
                count as nat,
            ),
        decreases count - done,
    {
        let stepped = runge_kutta_fourth_order_step(
            &slope,
            current_theta,
            current_velocity.0,
            current_velocity.1,
            h,
        );
        let next_theta = current_theta.plus(h);
        assert(stepped == next_velocity(specific_heat_ratio, current_velocity, current_theta, h)) by {
            reveal(next_velocity);
        }
        if !stepped.0.is_defined() || !stepped.1.is_defined() || !next_theta.is_defined() {
            return Err(IsentropicFlowError::DomainError);
        }
        if stop_integration_at_wall && stepped.1.ge(Fixed::zero()) {
            return Ok((velocity_components, thetas));
        }
        velocity_components.push(stepped);
        thetas.push(next_theta);
        current_velocity = stepped;
        current_theta = next_theta;
        done = done + 1;
    }
    if stop_integration_at_wall {
        Err(IsentropicFlowError::UndeterminedCrossing)
    } else {
        Ok((velocity_components, thetas))
    }
}

/// The value that `downstream_velocity_components` returns.
pub open spec fn downstream_velocity_components_spec(
    upstream_mach: Fixed,
    shock_angle: Fixed,
    specific_heat_ratio: Fixed,
) -> Result<(Fixed, Fixed), IsentropicFlowError> {
    let deflection = calc_deflection_angle_spec(upstream_mach, shock_angle, specific_heat_ratio);
    let downstream = calc_downstream_mach_from_shock_angle_spec(
        upstream_mach,
        shock_angle,
        specific_heat_ratio,
    );
    if deflection is Err {
        Err(deflection->Err_0)
    } else if downstream is Err {
        Err(downstream->Err_0)
    } else {
        let turned = shock_angle.minus(deflection->Ok_0);
        Ok(((downstream->Ok_0).times(turned.cos()), (downstream->Ok_0).neg().times(turned.sin())))
    }
}

/// Radial and tangential velocity just behind the shock, in the frame fixed
/// to the shock: the downstream Mach number resolved along and across the ray
/// at the shock angle, `M2 cos(beta - theta)` and `-M2 sin(beta - theta)`.
#[verifier::when_used_as_spec(downstream_velocity_components_spec)]
pub fn downstream_velocity_components(
    upstream_mach: Fixed,
    shock_angle: Fixed,
    specific_heat_ratio: Fixed,
) -> (r: Result<(Fixed, Fixed), IsentropicFlowError>)
    ensures
        r == downstream_velocity_components_spec(upstream_mach, shock_angle, specific_heat_ratio),
{
    let deflection_angle = calc_deflection_angle(upstream_mach, shock_angle, specific_heat_ratio)?;
    let downstream_mach = calc_downstream_mach_from_shock_angle(
        upstream_mach,
        shock_angle,
        specific_heat_ratio,
    )?;
    let turned = shock_angle.minus(deflection_angle);
    Ok((downstream_mach.times(turned.cos()), downstream_mach.neg().times(turned.sin())))
}

/// The value that `integrate_cone` returns.
pub open spec fn integrate_cone_spec(
    initial_state: (Fixed, Fixed),
    shock_angle: Fixed,
    specific_heat_ratio: Fixed,
    step_count: Option<i32>,
) -> Result<(Seq<(Fixed, Fixed)>, Seq<Fixed>), IsentropicFlowError> {
    let count = steps_or_default(step_count);
    let h = step_size(shock_angle, Fixed::zero(), count);
    if !valid_specific_heat_ratio(specific_heat_ratio) {
        Err(IsentropicFlowError::InvalidSpecificHeatRatio)
    } else if !initial_state.0.defined() || !initial_state.1.defined() || !shock_angle.defined() {
        Err(IsentropicFlowError::DomainError)
    } else if count <= 1 {
        Err(IsentropicFlowError::UndeterminedCrossing)
    } else if !h.defined() || h == Fixed::zero() {
        Err(IsentropicFlowError::DomainError)
    } else {
        march_spec(
            specific_heat_ratio,
            seq![initial_state],
            seq![shock_angle],
            h,
            true,
            (count - 1) as nat,
        )
    }
}

/// Every trace that [`integrate_cone_spec`] returns obeys the [`trace_laws`]
/// of a march to the axis that stops at the wall.
#[verifier::rlimit(50)]
pub proof fn lemma_cone_trace_laws(
    initial_state: (Fixed, Fixed),
    shock_angle: Fixed,
    specific_heat_ratio: Fixed,
    step_count: Option<i32>,
)
    ensures
        match integrate_cone_spec(initial_state, shock_angle, specific_heat_ratio, step_count) {
            Ok((velocities, thetas)) => {
                &&& trace_laws(
                    initial_state,
                    shock_angle,
                    Fixed::zero(),
                    specific_heat_ratio,
                    true,
                    step_count,
                    velocities,
                    thetas,
                )
                &&& velocities.len() <= steps_or_default(step_count)
            },
            Err(_) => true,
        },
{
    let count = steps_or_default(step_count);
    let h = step_size(shock_angle, Fixed::zero(), count);
    let start_velocities = seq![initial_state];
    let start_thetas = seq![shock_angle];
    match integrate_cone_spec(initial_state, shock_angle, specific_heat_ratio, step_count) {
        Ok((v, t)) => {
            assert(trace_invariant(specific_heat_ratio, start_velocities, start_thetas, h, true));
            lemma_march_trace(
                specific_heat_ratio,
                start_velocities,
                start_thetas,
                h,
                true,
                (count - 1) as nat,
            );
            assert(v[0] == v.subrange(0, 1)[0]);
            assert(t[0] == t.subrange(0, 1)[0]);
            assert forall|i: int, j: int| 0 <= i < j < t.len() implies if h.gt(Fixed::zero()) {
                (#[trigger] t[i]).lt(#[trigger] t[j])
            } else {
                t[i].gt(t[j])
            } by {
                lemma_angles_strictly_monotone(specific_heat_ratio, v, t, h, true, i, j);
            }
        },
        Err(_) => {},
    }
}

/// Marches from the state `initial_state` at the shock towards the axis and
/// stops at the wall. The step is the `step_count`-th part of the way to the
/// axis, and one step fewer is taken: the axis itself, where the equation
/// has no value, is not stepped on. The trace ends with the last sample
/// before the tangential velocity changes sign; without a sign change the
/// march fails with `UndeterminedCrossing`.
pub fn integrate_cone(
    initial_state: (Fixed, Fixed),
    shock_angle: Fixed,
    specific_heat_ratio: Fixed,
    step_count: Option<i32>,
) -> (r: Result<(Vec<(Fixed, Fixed)>, Vec<Fixed>), IsentropicFlowError>)
    ensures
        trace_view(r) == integrate_cone_spec(
            initial_state,
            shock_angle,
            specific_heat_ratio,
            step_count,
        ),
        r matches Ok((velocities, thetas)) ==> trace_laws(
            initial_state,
            shock_angle,
            Fixed::zero(),
            specific_heat_ratio,
            true,
            step_count,
            velocities@,
            thetas@,
        ) && velocities.len() <= steps_or_default(step_count),
{
    proof {
        lemma_cone_trace_laws(initial_state, shock_angle, specific_heat_ratio, step_count);
    }
    if !valid_specific_heat_ratio(specific_heat_ratio) {
        return Err(IsentropicFlowError::InvalidSpecificHeatRatio);
    }
    let count: i32 = match step_count {
        Some(n) => n,
        None => DEFAULT_STEPS,
    };
    let h = Fixed::zero().minus(shock_angle).div_int(count as i64);
    if !initial_state.0.is_defined() || !initial_state.1.is_defined() || !shock_angle.is_defined() {
        return Err(IsentropicFlowError::DomainError);
    }
    if count <= 1 {
        return Err(IsentropicFlowError::UndeterminedCrossing);
    }
    if !h.is_defined() || h == Fixed::zero() {
        return Err(IsentropicFlowError::DomainError);
    }
    march(initial_state, shock_angle, h, specific_heat_ratio, true, count - 1)
}

/// Where the march from a shock ended: the cone half-angle and the Mach
/// number on the cone surface.
pub struct ConeSurface {
    pub cone_angle: Fixed,
    pub surface_mach: Fixed,
}

/// The value that `cone_surface_from_shock` returns.
pub open spec fn cone_surface_from_shock_spec(
    upstream_mach: Fixed,
    shock_angle: Fixed,
    specific_heat_ratio: Fixed,
    steps: Option<i32>,
) -> Result<ConeSurface, IsentropicFlowError> {
    let start = downstream_velocity_components_spec(upstream_mach, shock_angle, specific_heat_ratio);
    if start is Err {
        Err(start->Err_0)
    } else {
        match integrate_cone_spec(start->Ok_0, shock_angle, specific_heat_ratio, steps) {
            Ok((velocities, thetas)) => Ok(
                ConeSurface { cone_angle: thetas.last(), surface_mach: velocities.last().0 },
            ),
            Err(e) => Err(e),
        }
    }
}

/// One shooting pass: marches from the conditions behind the shock at
/// `shock_angle` towards the axis until the tangential velocity would change
/// sign. The angle of the last sample kept is the cone half-angle and its
/// radial velocity the surface Mach number.
#[verifier::when_used_as_spec(cone_surface_from_shock_spec)]
pub fn cone_surface_from_shock(
    upstream_mach: Fixed,
    shock_angle: Fixed,
    specific_heat_ratio: Fixed,
    steps: Option<i32>,
) -> (r: Result<ConeSurface, IsentropicFlowError>)
    ensures
        r == cone_surface_from_shock_spec(upstream_mach, shock_angle, specific_heat_ratio, steps),
{
    let start = downstream_velocity_components(upstream_mach, shock_angle, specific_heat_ratio)?;
    let (velocity_components, thetas) = integrate_cone(
        start,
        shock_angle,
        specific_heat_ratio,
        steps,
    )?;
    let last = thetas.len() - 1;
    Ok(ConeSurface { cone_angle: thetas[last], surface_mach: velocity_components[last].0 })
}

/// Each angle of a trace is the first angle plus a whole number of steps.
pub proof fn lemma_angle_offsets(
    specific_heat_ratio: Fixed,
    velocities: Seq<(Fixed, Fixed)>,
    thetas: Seq<Fixed>,
    h: Fixed,
    stop_integration_at_wall: bool,
    i: int,
)
    requires
        trace_invariant(specific_heat_ratio, velocities, thetas, h, stop_integration_at_wall),
        0 <= i < thetas.len(),
    ensures
        thetas[i].raw() == thetas[0].raw() + i * h.raw(),
    decreases i,
{
    if i > 0 {
        lemma_angle_offsets(
            specific_heat_ratio,
            velocities,
            thetas,
            h,
            stop_integration_at_wall,
            i - 1,
        );
        assert(thetas[i] == thetas[i - 1].plus(h));
        assert(thetas[i].defined() && thetas[i - 1].defined());
        assert(i * h.raw() == (i - 1) * h.raw() + h.raw()) by (nonlinear_arith);
    } else {
        assert(i * h.raw() == 0) by (nonlinear_arith)
            requires
                i == 0,
        ;
    }
}

/// A march of `last` steps, each the rounded `count`-th part of the way from
/// the positive angle `beta` to zero, ends no higher than `beta` and no
/// further below zero than half a raw unit for every step.
proof fn lemma_steps_towards_axis(beta: int, count: int, last: int, step: int, end: int)
    requires
        beta > 0,
        count > 0,
        0 <= last <= count,
        step == round_div(-beta, count),
        end == beta + last * step,
    ensures
        end <= beta,
        2 * end >= -count,
{
    let q = (beta + count / 2) / count;
    assert(round_div(-beta, count) == -q);
    assert(0 <= q && q * count <= beta + count / 2) by (nonlinear_arith)
        requires
            q == (beta + count / 2) / count,
            count > 0,
            beta > 0,
    ;
    assert(0 <= last * q <= count * q) by (nonlinear_arith)
        requires
            0 <= last <= count,
            0 <= q,
    ;
    assert(last * step == -(last * q)) by (nonlinear_arith)
        requires
            step == -q,
    ;
    assert(count * q == q * count) by (nonlinear_arith);
}

/// The last sample of a march towards the axis. A march that succeeds from a
/// positive angle ends on a sample whose parts are numbers and whose angle
/// does not exceed the first and lies no further beyond the axis than the
/// rounding of the step can carry it, one raw unit for every two steps.
#[verifier::rlimit(50)]
pub proof fn lemma_march_ends_inside(
    initial_state: (Fixed, Fixed),
    shock_angle: Fixed,
    specific_heat_ratio: Fixed,
    steps: Option<i32>,
)
    ensures
        match integrate_cone_spec(initial_state, shock_angle, specific_heat_ratio, steps) {
            Ok((velocities, thetas)) => {
                &&& thetas.len() >= 1
                &&& velocities.len() == thetas.len()
                &&& thetas.last().defined()
                &&& velocities.last().0.defined()
                &&& shock_angle.gt(Fixed::zero()) ==> thetas.last().le(shock_angle) && 2
                    * thetas.last().raw() >= -steps_or_default(steps)
            },
            Err(_) => true,
        },
{
    lemma_cone_trace_laws(initial_state, shock_angle, specific_heat_ratio, steps);
    match integrate_cone_spec(initial_state, shock_angle, specific_heat_ratio, steps) {
        Ok((v, t)) => {
            let count = steps_or_default(steps) as int;
            let h = step_size(shock_angle, Fixed::zero(), steps_or_default(steps));
            let last = t.len() - 1;
            assert(count > 0);
            assert(last <= count);
            lemma_angle_offsets(specific_heat_ratio, v, t, h, true, last);
            if shock_angle.gt(Fixed::zero()) {
                assert(h.defined());
                assert(h.raw() == round_div(-shock_angle.raw(), count));
                lemma_steps_towards_axis(shock_angle.raw(), count, last, h.raw(), t[last].raw());
            }
        },
        Err(_) => {},
    }
}

/// The cone lies inside its shock. A shooting pass that succeeds from a
/// positive shock angle ends on a cone angle that does not exceed the shock
/// angle and lies no further beyond the axis than the rounding of the step
/// can carry it, one raw unit for every two steps; the cone angle and the
/// surface Mach number are numbers.
#[verifier::rlimit(50)]
pub proof fn lemma_cone_inside_shock(
    upstream_mach: Fixed,
    shock_angle: Fixed,
    specific_heat_ratio: Fixed,
    steps: Option<i32>,
)
    ensures
        match cone_surface_from_shock_spec(upstream_mach, shock_angle, specific_heat_ratio, steps) {
            Ok(surface) => {
                &&& surface.cone_angle.defined()
                &&& surface.surface_mach.defined()
                &&& shock_angle.gt(Fixed::zero()) ==> surface.cone_angle.le(shock_angle) && 2
                    * surface.cone_angle.raw() >= -steps_or_default(steps)
            },
            Err(_) => true,
        },
{
    let start = downstream_velocity_components_spec(upstream_mach, shock_angle, specific_heat_ratio);
    if start is Ok {
        lemma_march_ends_inside(start->Ok_0, shock_angle, specific_heat_ratio, steps);
    }
}

/// A ratio across the shock carried on to the cone surface, which has to be
/// positive: the ratio across
/// the shock times the ratio between the surface and the state behind the
/// shock, which is the quotient of the two isentropic ratios because the
/// stagnation state does not change between them.
pub open spec fn chain_to_surface(
    across_shock: Result<Fixed, IsentropicFlowError>,
    downstream_mach: Result<Fixed, IsentropicFlowError>,
    at_surface: Result<Fixed, IsentropicFlowError>,
    behind_shock: Result<Fixed, IsentropicFlowError>,
) -> Result<Fixed, IsentropicFlowError> {
    if across_shock is Err {
        Err(across_shock->Err_0)
    } else if downstream_mach is Err {
        Err(downstream_mach->Err_0)
    } else if at_surface is Err {
        Err(at_surface->Err_0)
    } else if behind_shock is Err {
        Err(behind_shock->Err_0)
    } else {
        positive((across_shock->Ok_0).times((at_surface->Ok_0).over(behind_shock->Ok_0)))
    }
}

/// The value that `calc_surface_pressure_ratio` returns.
pub open spec fn calc_surface_pressure_ratio_spec(
    upstream_mach: Fixed,
    shock_angle: Fixed,
    surface_mach: Fixed,
    specific_heat_ratio: Fixed,
) -> Result<Fixed, IsentropicFlowError> {
    let downstream = calc_downstream_mach_from_shock_angle_spec(
        upstream_mach,
        shock_angle,
        specific_heat_ratio,
    );
    chain_to_surface(
        calc_pressure_ratio_spec(upstream_mach, shock_angle, specific_heat_ratio),
        downstream,
        calc_pressure_ratio_from_mach_spec(surface_mach, specific_heat_ratio),
        if downstream is Ok {
            calc_pressure_ratio_from_mach_spec(downstream->Ok_0, specific_heat_ratio)
        } else {
            downstream
        },
    )
}

/// Pressure on the cone surface over the upstream pressure: the pressure
/// ratio across the shock times the isentropic pressure ratio at the surface
/// Mach number over that at the Mach number behind the shock.
#[verifier::when_used_as_spec(calc_surface_pressure_ratio_spec)]
pub fn calc_surface_pressure_ratio(
    upstream_mach: Fixed,
    shock_angle: Fixed,
    surface_mach: Fixed,
    specific_heat_ratio: Fixed,
) -> (r: Result<Fixed, IsentropicFlowError>)
    ensures
        r == calc_surface_pressure_ratio_spec(
            upstream_mach,
            shock_angle,
            surface_mach,
            specific_heat_ratio,
        ),
        r matches Ok(ratio) ==> ratio.gt(Fixed::zero()),
{
    let across_shock = calc_pressure_ratio(upstream_mach, shock_angle, specific_heat_ratio)?;
    let downstream_mach = calc_downstream_mach_from_shock_angle(
        upstream_mach,
        shock_angle,
        specific_heat_ratio,
    )?;
    let at_surface = calc_pressure_ratio_from_mach(surface_mach, specific_heat_ratio)?;
    let behind_shock = calc_pressure_ratio_from_mach(downstream_mach, specific_heat_ratio)?;
    positive(across_shock.times(at_surface.over(behind_shock)))
}

/// The value that `calc_surface_density_ratio` returns.
pub open spec fn calc_surface_density_ratio_spec(
    upstream_mach: Fixed,
    shock_angle: Fixed,
    surface_mach: Fixed,
    specific_heat_ratio: Fixed,
) -> Result<Fixed, IsentropicFlowError> {
    let downstream = calc_downstream_mach_from_shock_angle_spec(
        upstream_mach,
        shock_angle,
        specific_heat_ratio,
    );
    chain_to_surface(
        calc_density_ratio_spec(upstream_mach, shock_angle, specific_heat_ratio),
        downstream,
        calc_density_ratio_from_mach_spec(surface_mach, specific_heat_ratio),
        if downstream is Ok {
            calc_density_ratio_from_mach_spec(downstream->Ok_0, specific_heat_ratio)
        } else {
            downstream
        },
    )
}

/// Density on the cone surface over the upstream density: the density ratio
/// across the shock times the isentropic density ratio at the surface Mach
/// number over that at the Mach number behind the shock.
#[verifier::when_used_as_spec(calc_surface_density_ratio_spec)]
pub fn calc_surface_density_ratio(
    upstream_mach: Fixed,
    shock_angle: Fixed,
    surface_mach: Fixed,
    specific_heat_ratio: Fixed,
) -> (r: Result<Fixed, IsentropicFlowError>)
    ensures
        r == calc_surface_density_ratio_spec(
            upstream_mach,
            shock_angle,
            surface_mach,
            specific_heat_ratio,
        ),
        r matches Ok(ratio) ==> ratio.gt(Fixed::zero()),
{
    let across_shock = calc_density_ratio(upstream_mach, shock_angle, specific_heat_ratio)?;
    let downstream_mach = calc_downstream_mach_from_shock_angle(
        upstream_mach,
        shock_angle,
        specific_heat_ratio,
    )?;
    let at_surface = calc_density_ratio_from_mach(surface_mach, specific_heat_ratio)?;
    let behind_shock = calc_density_ratio_from_mach(downstream_mach, specific_heat_ratio)?;
    positive(across_shock.times(at_surface.over(behind_shock)))
}

/// The value that `calc_surface_temperature_ratio` returns.
pub open spec fn calc_surface_temperature_ratio_spec(
    upstream_mach: Fixed,
    shock_angle: Fixed,
    surface_mach: Fixed,
    specific_heat_ratio: Fixed,
) -> Result<Fixed, IsentropicFlowError> {
    let downstream = calc_downstream_mach_from_shock_angle_spec(
        upstream_mach,
        shock_angle,
        specific_heat_ratio,
    );
    chain_to_surface(
        calc_temperature_ratio_spec(upstream_mach, shock_angle, specific_heat_ratio),
        downstream,
        calc_temperature_ratio_from_mach_spec(surface_mach, specific_heat_ratio),
        if downstream is Ok {
            calc_temperature_ratio_from_mach_spec(downstream->Ok_0, specific_heat_ratio)
        } else {
            downstream
        },
    )
}

/// Temperature on the cone surface over the upstream temperature: the
/// temperature ratio across the shock times the isentropic temperature ratio
/// at the surface Mach number over that at the Mach number behind the shock.
#[verifier::when_used_as_spec(calc_surface_temperature_ratio_spec)]
pub fn calc_surface_temperature_ratio(
    upstream_mach: Fixed,
    shock_angle: Fixed,
    surface_mach: Fixed,
    specific_heat_ratio: Fixed,
) -> (r: Result<Fixed, IsentropicFlowError>)
    ensures
        r == calc_surface_temperature_ratio_spec(
            upstream_mach,
            shock_angle,
            surface_mach,
            specific_heat_ratio,
        ),
        r matches Ok(ratio) ==> ratio.gt(Fixed::zero()),
{
    let across_shock = calc_temperature_ratio(upstream_mach, shock_angle, specific_heat_ratio)?;
    let downstream_mach = calc_downstream_mach_from_shock_angle(
        upstream_mach,
        shock_angle,
        specific_heat_ratio,
    )?;
    let at_surface = calc_temperature_ratio_from_mach(surface_mach, specific_heat_ratio)?;
    let behind_shock = calc_temperature_ratio_from_mach(downstream_mach, specific_heat_ratio)?;
    positive(across_shock.times(at_surface.over(behind_shock)))
}

/// The quantities of the flow over a cone.
pub struct SupersonicConeValues {
    /// Mach number ahead of the shock.
    pub upstream_mach: Fixed,
    /// Half-angle of the conical shock, in radians.
    pub shock_angle: Fixed,
    /// Mach number on the cone surface.
    pub surface_mach: Fixed,
    /// Half-angle of the cone, in radians.
    pub cone_angle: Fixed,
    /// Shock angle less cone angle, in radians.
    pub shock_turn_angle: Fixed,
    /// Static pressure behind the shock over upstream.
    pub pressure_ratio: Fixed,
    /// Density behind the shock over upstream.
    pub density_ratio: Fixed,
    /// Static temperature behind the shock over upstream.
    pub temperature_ratio: Fixed,
    /// Stagnation pressure behind the shock over upstream.
    pub stagnation_pressure_ratio: Fixed,
    /// Static pressure on the surface over upstream.
    pub surface_pressure_ratio: Fixed,
    /// Density on the surface over upstream.
    pub surface_density_ratio: Fixed,
    /// Static temperature on the surface over upstream.
    pub surface_temperature_ratio: Fixed,
    /// Stagnation pressure on the surface over upstream; the same as behind
    /// the shock, since the flow between them is isentropic.
    pub surface_stagnation_pressure_ratio: Fixed,
}

/// The flow over a cone in a supersonic stream: a snapshot of every quantity,
/// built whole by its constructors from a validated shock or cone angle.
#[derive(Clone, Copy, Debug)]
pub struct SupersonicCone {
    upstream_mach: Fixed,
    shock_angle: Fixed,
    surface_mach: Fixed,
    cone_angle: Fixed,
    shock_turn_angle: Fixed,
    pressure_ratio: Fixed,
    density_ratio: Fixed,
    temperature_ratio: Fixed,
    stagnation_pressure_ratio: Fixed,
    surface_pressure_ratio: Fixed,
    surface_density_ratio: Fixed,
    surface_temperature_ratio: Fixed,
    surface_stagnation_pressure_ratio: Fixed,
}

impl View for SupersonicCone {
    type V = SupersonicConeValues;

    closed spec fn view(&self) -> SupersonicConeValues {
        SupersonicConeValues {
            upstream_mach: self.upstream_mach,
            shock_angle: self.shock_angle,
            surface_mach: self.surface_mach,
            cone_angle: self.cone_angle,
            shock_turn_angle: self.shock_turn_angle,
            pressure_ratio: self.pressure_ratio,
            density_ratio: self.density_ratio,
            temperature_ratio: self.temperature_ratio,
            stagnation_pressure_ratio: self.stagnation_pressure_ratio,
            surface_pressure_ratio: self.surface_pressure_ratio,
            surface_density_ratio: self.surface_density_ratio,
            surface_temperature_ratio: self.surface_temperature_ratio,
            surface_stagnation_pressure_ratio: self.surface_stagnation_pressure_ratio,
        }
    }
}

/// A result with the value it holds taken by its view.
pub open spec fn cone_values(r: Result<SupersonicCone, IsentropicFlowError>) -> Result<
    SupersonicConeValues,
    IsentropicFlowError,
> {
    match r {
        Ok(v) => Ok(v@),
        Err(e) => Err(e),
    }
}

impl SupersonicConeValues {
    /// What holds of every cone flow that is built: each quantity is a
    /// number, the upstream flow is supersonic, the shock angle lies strictly
    /// between zero and a quarter turn, the cone angle is positive and the
    /// cone lies inside the shock, the
    /// turn angle is the difference of the two angles, and the stagnation
    /// pressure on the surface is that behind the shock.
    pub open spec fn well_formed(self) -> bool {
        &&& self.upstream_mach.gt(Fixed::one())
        &&& acute_spec(self.shock_angle)
        &&& self.cone_angle.gt(Fixed::zero())
        &&& self.cone_angle.le(self.shock_angle)
        &&& self.surface_mach.defined()
        &&& self.shock_turn_angle == self.shock_angle.minus(self.cone_angle)
        &&& self.shock_turn_angle.ge(Fixed::zero())
        &&& self.pressure_ratio.defined()
        &&& self.density_ratio.defined()
        &&& self.temperature_ratio.defined()
        &&& self.stagnation_pressure_ratio.defined()
        &&& self.surface_pressure_ratio.defined()
        &&& self.surface_density_ratio.defined()
        &&& self.surface_temperature_ratio.defined()
        &&& self.surface_stagnation_pressure_ratio == self.stagnation_pressure_ratio
    }
}

/// Whether an angle lies strictly between zero and a quarter turn.
pub open spec fn acute_spec(angle: Fixed) -> bool {
    angle.gt(Fixed::zero()) && angle.lt(Fixed::half_pi())
}

#[verifier::when_used_as_spec(acute_spec)]
fn acute(angle: Fixed) -> (a: bool)
    ensures
        a == acute_spec(angle),
{
    angle.gt(Fixed::zero()) && angle.lt(Fixed::half_pi())
}

/// How far the cone angle of an accepted shock may lie from the cone angle
/// asked for: one step of the march and twice the tolerance of the search.
pub open spec fn search_slack_spec(
    shock_angle: Fixed,
    steps: Option<i32>,
    tolerance: Option<Fixed>,
) -> Fixed {
    step_size(shock_angle, Fixed::zero(), steps_or_default(steps)).abs().plus(
        tolerance_or_default(tolerance).twice(),
    )
}

#[verifier::when_used_as_spec(search_slack_spec)]
pub fn search_slack(shock_angle: Fixed, steps: Option<i32>, tolerance: Option<Fixed>) -> (r: Fixed)
    ensures
        r == search_slack_spec(shock_angle, steps, tolerance),
{
    let count: i32 = match steps {
        Some(n) => n,
        None => DEFAULT_STEPS,
    };
    let allowed = match tolerance {
        Some(t) => t,
        None => default_tolerance(),
    };
    Fixed::zero().minus(shock_angle).div_int(count as i64).abs().plus(allowed.twice())
}

/// The cone that a search found, if its cone angle lies within `slack` of
/// the one asked for; a cone further off is no answer: the cone angle asked
/// for is then one that no attached shock of the search gives, a domain
/// error.
pub open spec fn accept_cone_angle(
    found: Result<SupersonicConeValues, IsentropicFlowError>,
    cone_angle: Fixed,
    slack: Fixed,
) -> Result<SupersonicConeValues, IsentropicFlowError> {
    match found {
        Ok(cone) => if cone.cone_angle.minus(cone_angle).abs().le(slack) {
            Ok(cone)
        } else {
            Err(IsentropicFlowError::DomainError)
        },
        Err(e) => Err(e),
    }
}

/// The cone that a search found, if its surface Mach number lies within
/// `slack` of the one asked for.
pub open spec fn accept_surface_mach(
    found: Result<SupersonicConeValues, IsentropicFlowError>,
    surface_mach: Fixed,
    slack: Fixed,
) -> Result<SupersonicConeValues, IsentropicFlowError> {
    match found {
        Ok(cone) => if cone.surface_mach.minus(surface_mach).abs().le(slack) {
            Ok(cone)
        } else {
            Err(IsentropicFlowError::DomainError)
        },
        Err(e) => Err(e),
    }
}

fn accepted_by_cone_angle(
    found: Result<SupersonicCone, IsentropicFlowError>,
    cone_angle: Fixed,
    slack: Fixed,
) -> (r: Result<SupersonicCone, IsentropicFlowError>)
    ensures
        cone_values(r) == accept_cone_angle(cone_values(found), cone_angle, slack),
        r matches Ok(cone) ==> found == Ok::<SupersonicCone, IsentropicFlowError>(cone),
{
    match found {
        Ok(cone) => if cone.cone_angle.minus(cone_angle).abs().le(slack) {
            Ok(cone)
        } else {
            Err(IsentropicFlowError::DomainError)
        },
        Err(e) => Err(e),
    }
}

fn accepted_by_surface_mach(
    found: Result<SupersonicCone, IsentropicFlowError>,
    surface_mach: Fixed,
    slack: Fixed,
) -> (r: Result<SupersonicCone, IsentropicFlowError>)
    ensures
        cone_values(r) == accept_surface_mach(cone_values(found), surface_mach, slack),
        r matches Ok(cone) ==> found == Ok::<SupersonicCone, IsentropicFlowError>(cone),
{
    match found {
        Ok(cone) => if cone.surface_mach.minus(surface_mach).abs().le(slack) {
            Ok(cone)
        } else {
            Err(IsentropicFlowError::DomainError)
        },
        Err(e) => Err(e),
    }
}

/// Whether the flow just behind a shock at `shock_angle` is not supersonic.
/// Such a shock belongs to the strong family: the march behind it has no
/// meaning for an attached conical shock, so the searches for a shock angle
/// count it as too steep.
pub open spec fn too_steep_spec(
    upstream_mach: Fixed,
    shock_angle: Fixed,
    specific_heat_ratio: Fixed,
) -> bool {
    match calc_downstream_mach_from_shock_angle_spec(upstream_mach, shock_angle, specific_heat_ratio) {
        Ok(downstream) => !downstream.gt(Fixed::one()),
        Err(_) => false,
    }
}

#[verifier::when_used_as_spec(too_steep_spec)]
pub fn too_steep(upstream_mach: Fixed, shock_angle: Fixed, specific_heat_ratio: Fixed) -> (r: bool)
    ensures
        r == too_steep_spec(upstream_mach, shock_angle, specific_heat_ratio),
{
    match calc_downstream_mach_from_shock_angle(upstream_mach, shock_angle, specific_heat_ratio) {
        Ok(downstream) => !downstream.gt(Fixed::one()),
        Err(_) => false,
    }
}

/// The cone angle that a shock angle gives, less the cone angle asked for, as
/// a function of the shock angle. Where the march reaches the axis without a
/// crossing the flow turns towards no cone at all, and the cone angle counts
/// as zero. Where the shock is too steep ([`too_steep`]) or the pass fails
/// otherwise, the shock is too strong for a cone flow, and the residual
/// counts as one: the search then looks among the weaker shocks.
pub open spec fn cone_angle_residual(
    upstream_mach: Fixed,
    cone_angle: Fixed,
    specific_heat_ratio: Fixed,
    steps: Option<i32>,
) -> spec_fn(Fixed) -> Fixed {
    |shock_angle: Fixed|
        if too_steep_spec(upstream_mach, shock_angle, specific_heat_ratio) {
            Fixed::one()
        } else {
            match cone_surface_from_shock_spec(upstream_mach, shock_angle, specific_heat_ratio, steps) {
                Ok(surface) => surface.cone_angle.minus(cone_angle),
                Err(IsentropicFlowError::UndeterminedCrossing) => cone_angle.neg(),
                Err(_) => Fixed::one(),
            }
        }
}

/// The surface Mach number that a shock angle gives, less the one asked for,
/// as a function of the shock angle. Where the march reaches the axis without
/// a crossing the flow is as good as undisturbed, and the surface Mach number
/// counts as the upstream one. Where the shock is too steep ([`too_steep`])
/// or the pass fails otherwise, the shock is too strong for a cone flow, and
/// the residual counts as minus one: the search then looks among the weaker
/// shocks.
pub open spec fn surface_mach_residual(
    upstream_mach: Fixed,
    surface_mach: Fixed,
    specific_heat_ratio: Fixed,
    steps: Option<i32>,
) -> spec_fn(Fixed) -> Fixed {
    |shock_angle: Fixed|
        if too_steep_spec(upstream_mach, shock_angle, specific_heat_ratio) {
            Fixed::one().neg()
        } else {
            match cone_surface_from_shock_spec(upstream_mach, shock_angle, specific_heat_ratio, steps) {
                Ok(surface) => surface.surface_mach.minus(surface_mach),
                Err(IsentropicFlowError::UndeterminedCrossing) => upstream_mach.minus(surface_mach),
                Err(_) => Fixed::one().neg(),
            }
        }
}

impl SupersonicCone {
    /// The value that `from_mach_and_shock_angle_with_steps` returns.
    pub open spec fn from_mach_and_shock_angle_with_steps_spec(
        upstream_mach: Fixed,
        shock_angle: Fixed,
        specific_heat_ratio: Fixed,
        steps: Option<i32>,
    ) -> Result<SupersonicConeValues, IsentropicFlowError> {
        let pressure = calc_pressure_ratio_spec(upstream_mach, shock_angle, specific_heat_ratio);
        let density = calc_density_ratio_spec(upstream_mach, shock_angle, specific_heat_ratio);
        let temperature = calc_temperature_ratio_spec(
            upstream_mach,
            shock_angle,
            specific_heat_ratio,
        );
        let stagnation = calc_stagnation_pressure_ratio_spec(
            upstream_mach,
            shock_angle,
            specific_heat_ratio,
        );
        let surface = cone_surface_from_shock_spec(upstream_mach, shock_angle, specific_heat_ratio, steps);
        if !valid_specific_heat_ratio(specific_heat_ratio) {
            Err(IsentropicFlowError::InvalidSpecificHeatRatio)
        } else if !upstream_mach.gt(Fixed::one()) {
            Err(IsentropicFlowError::InvalidMachNumber)
        } else if !acute_spec(shock_angle) {
            Err(IsentropicFlowError::DomainError)
        } else if pressure is Err {
            Err(pressure->Err_0)
        } else if density is Err {
            Err(density->Err_0)
        } else if temperature is Err {
            Err(temperature->Err_0)
        } else if stagnation is Err {
            Err(stagnation->Err_0)
        } else if surface is Err {
            Err(surface->Err_0)
        } else if !(surface->Ok_0).cone_angle.gt(Fixed::zero()) {
            Err(IsentropicFlowError::DomainError)
        } else {
            let surface_mach = (surface->Ok_0).surface_mach;
            let cone_angle = (surface->Ok_0).cone_angle;
            let surface_pressure = calc_surface_pressure_ratio_spec(
                upstream_mach,
                shock_angle,
                surface_mach,
                specific_heat_ratio,
            );
            let surface_density = calc_surface_density_ratio_spec(
                upstream_mach,
                shock_angle,
                surface_mach,
                specific_heat_ratio,
            );
            let surface_temperature = calc_surface_temperature_ratio_spec(
                upstream_mach,
                shock_angle,
                surface_mach,
                specific_heat_ratio,
            );
            if surface_pressure is Err {
                Err(surface_pressure->Err_0)
            } else if surface_density is Err {
                Err(surface_density->Err_0)
            } else if surface_temperature is Err {
                Err(surface_temperature->Err_0)
            } else {
                Ok(
                    SupersonicConeValues {
                        upstream_mach,
                        shock_angle,
                        surface_mach,
                        cone_angle,
                        shock_turn_angle: shock_angle.minus(cone_angle),
                        pressure_ratio: pressure->Ok_0,
                        density_ratio: density->Ok_0,
                        temperature_ratio: temperature->Ok_0,
                        stagnation_pressure_ratio: stagnation->Ok_0,
                        surface_pressure_ratio: surface_pressure->Ok_0,
                        surface_density_ratio: surface_density->Ok_0,
                        surface_temperature_ratio: surface_temperature->Ok_0,
                        surface_stagnation_pressure_ratio: stagnation->Ok_0,
                    },
                )
            }
        }
    }

    /// The flow over the cone that carries a shock at `shock_angle`, with the
    /// number of integration steps given.
    ///
    /// The specific-heat ratio must exceed one, the Mach number must exceed
    /// one and the shock angle must lie strictly between zero and a quarter
    /// turn. The ratios across the shock come first, then one shooting pass
    /// gives the cone angle and the surface Mach number, and the ratios at
    /// the surface follow from both. A march whose last sample lies on or
    /// beyond the axis gives no cone and is a domain error. The first
    /// quantity that cannot be had decides the error.
    pub fn from_mach_and_shock_angle_with_steps(
        upstream_mach: Fixed,
        shock_angle: Fixed,
        specific_heat_ratio: Fixed,
        steps: Option<i32>,
    ) -> (r: Result<SupersonicCone, IsentropicFlowError>)
        ensures
            cone_values(r) == Self::from_mach_and_shock_angle_with_steps_spec(
                upstream_mach,
                shock_angle,
                specific_heat_ratio,
                steps,
            ),
            r matches Ok(cone) ==> cone@.well_formed(),
            r matches Ok(cone) ==> cone@.upstream_mach == upstream_mach && cone@.shock_angle
                == shock_angle,
    {
        proof {
            lemma_cone_inside_shock(upstream_mach, shock_angle, specific_heat_ratio, steps);
        }
        if !valid_specific_heat_ratio(specific_heat_ratio) {
            return Err(IsentropicFlowError::InvalidSpecificHeatRatio);
        }
        if !upstream_mach.gt(Fixed::one()) {
            return Err(IsentropicFlowError::InvalidMachNumber);
        }
        if !acute(shock_angle) {
            return Err(IsentropicFlowError::DomainError);
        }
        let pressure_ratio = calc_pressure_ratio(upstream_mach, shock_angle, specific_heat_ratio)?;
        let density_ratio = calc_density_ratio(upstream_mach, shock_angle, specific_heat_ratio)?;
        let temperature_ratio = calc_temperature_ratio(
            upstream_mach,
            shock_angle,
            specific_heat_ratio,
        )?;
        let stagnation_pressure_ratio = calc_stagnation_pressure_ratio(
            upstream_mach,
            shock_angle,
            specific_heat_ratio,
        )?;
        let surface = cone_surface_from_shock(upstream_mach, shock_angle, specific_heat_ratio, steps)?;
        let surface_mach = surface.surface_mach;
        let cone_angle = surface.cone_angle;
        if !cone_angle.gt(Fixed::zero()) {
            return Err(IsentropicFlowError::DomainError);
        }
        let surface_pressure_ratio = calc_surface_pressure_ratio(
            upstream_mach,
            shock_angle,
            surface_mach,
            specific_heat_ratio,
        )?;
        let surface_density_ratio = calc_surface_density_ratio(
            upstream_mach,
            shock_angle,
            surface_mach,
            specific_heat_ratio,
        )?;
        let surface_temperature_ratio = calc_surface_temperature_ratio(
            upstream_mach,
            shock_angle,
            surface_mach,
            specific_heat_ratio,
        )?;
        Ok(
            SupersonicCone {
                upstream_mach,
                shock_angle,
                surface_mach,
                cone_angle,
                shock_turn_angle: shock_angle.minus(cone_angle),
                pressure_ratio,
                density_ratio,
                temperature_ratio,
                stagnation_pressure_ratio,
                surface_pressure_ratio,
                surface_density_ratio,
                surface_temperature_ratio,
                surface_stagnation_pressure_ratio: stagnation_pressure_ratio,
            },
        )
    }

    /// The flow over the cone that carries a shock at `shock_angle`, with
    /// [`DEFAULT_STEPS`] integration steps; see
    /// [`SupersonicCone::from_mach_and_shock_angle_with_steps`].
    pub fn from_mach_and_shock_angle(
        upstream_mach: Fixed,
        shock_angle: Fixed,
        specific_heat_ratio: Fixed,
    ) -> (r: Result<SupersonicCone, IsentropicFlowError>)
        ensures
            cone_values(r) == Self::from_mach_and_shock_angle_with_steps_spec(
                upstream_mach,
                shock_angle,
                specific_heat_ratio,
                None,
            ),
            r matches Ok(cone) ==> cone@.well_formed(),
    {
        SupersonicCone::from_mach_and_shock_angle_with_steps(
            upstream_mach,
            shock_angle,
            specific_heat_ratio,
            None,
        )
    }

    /// The value that `from_mach_and_cone_angle_with` returns.
    pub open spec fn from_mach_and_cone_angle_with_spec(
        upstream_mach: Fixed,
        cone_angle: Fixed,
        specific_heat_ratio: Fixed,
        steps: Option<i32>,
        tolerance: Option<Fixed>,
        max_iters: Option<u16>,
    ) -> Result<SupersonicConeValues, IsentropicFlowError> {
        let mach_angle = calc_mach_angle_from_mach_spec(upstream_mach);
        if !valid_specific_heat_ratio(specific_heat_ratio) {
            Err(IsentropicFlowError::InvalidSpecificHeatRatio)
        } else if !upstream_mach.gt(Fixed::one()) {
            Err(IsentropicFlowError::InvalidMachNumber)
        } else if !acute_spec(cone_angle) {
            Err(IsentropicFlowError::DomainError)
        } else if mach_angle is Err {
            Err(mach_angle->Err_0)
        } else {
            match bisection_spec(
                cone_angle_residual(upstream_mach, cone_angle, specific_heat_ratio, steps),
                mach_angle->Ok_0,
                Fixed::half_pi(),
                tolerance,
                max_iters,
            ) {
                Ok(shock_angle) => accept_cone_angle(
                    Self::from_mach_and_shock_angle_with_steps_spec(
                        upstream_mach,
                        shock_angle,
                        specific_heat_ratio,
                        steps,
                    ),
                    cone_angle,
                    search_slack_spec(shock_angle, steps, tolerance),
                ),
                Err(e) => Err(e),
            }
        }
    }

    /// The flow over a cone of half-angle `cone_angle`, with the number of
    /// integration steps, the tolerance and the iteration cap given.
    ///
    /// The specific-heat ratio must exceed one, the Mach number must exceed
    /// one and the cone angle must lie strictly between zero and a quarter
    /// turn. The shock angle is found by bisection between the Mach angle and
    /// a quarter turn on [`cone_angle_residual`], each evaluation of which is
    /// one shooting pass; the flow is then built at that shock angle. The
    /// cone angle of the flow that is returned differs from the one asked
    /// for by no more than one step of the march and twice the tolerance
    /// ([`search_slack`]); where the search ends at a shock angle whose cone
    /// lies further off, no attached shock of the search gives the cone
    /// angle, and the result is `DomainError`. That is so of a cone angle
    /// beyond the greatest that the stream admits, and may be so of one close
    /// to it, where the cone angle no longer rises with the shock angle.
    pub fn from_mach_and_cone_angle_with(
        upstream_mach: Fixed,
        cone_angle: Fixed,
        specific_heat_ratio: Fixed,
        steps: Option<i32>,
        tolerance: Option<Fixed>,
        max_iters: Option<u16>,
    ) -> (r: Result<SupersonicCone, IsentropicFlowError>)
        ensures
            cone_values(r) == Self::from_mach_and_cone_angle_with_spec(
                upstream_mach,
                cone_angle,
                specific_heat_ratio,
                steps,
                tolerance,
                max_iters,
            ),
            r matches Ok(cone) ==> cone@.well_formed(),
            r matches Ok(cone) ==> cone@.cone_angle.minus(cone_angle).abs().le(
                search_slack_spec(cone@.shock_angle, steps, tolerance),
            ),
    {
        if !valid_specific_heat_ratio(specific_heat_ratio) {
            return Err(IsentropicFlowError::InvalidSpecificHeatRatio);
        }
        if !upstream_mach.gt(Fixed::one()) {
            return Err(IsentropicFlowError::InvalidMachNumber);
        }
        if !acute(cone_angle) {
            return Err(IsentropicFlowError::DomainError);
        }
        let mach_angle = calc_mach_angle_from_mach(upstream_mach)?;
        let residual = |shock_angle: Fixed| -> (y: Fixed)
            ensures
                y == cone_angle_residual(upstream_mach, cone_angle, specific_heat_ratio, steps)(
                    shock_angle,
                ),
            {
                if too_steep(upstream_mach, shock_angle, specific_heat_ratio) {
                    Fixed::one()
                } else {
                    match cone_surface_from_shock(upstream_mach, shock_angle, specific_heat_ratio, steps) {
                        Ok(surface) => surface.cone_angle.minus(cone_angle),
                        Err(IsentropicFlowError::UndeterminedCrossing) => cone_angle.neg(),
                        Err(_) => Fixed::one(),
                    }
                }
            };
        assert(computes(
            &residual,
            cone_angle_residual(upstream_mach, cone_angle, specific_heat_ratio, steps),
        ));
        let shock_angle = bisection(&residual, mach_angle, Fixed::half_pi(), tolerance, max_iters)?;
        let found = SupersonicCone::from_mach_and_shock_angle_with_steps(
            upstream_mach,
            shock_angle,
            specific_heat_ratio,
            steps,
        );
        accepted_by_cone_angle(found, cone_angle, search_slack(shock_angle, steps, tolerance))
    }

    /// The flow over a cone of half-angle `cone_angle`, with
    /// [`DEFAULT_STEPS`] integration steps and the default tolerance and
    /// iteration cap; see [`SupersonicCone::from_mach_and_cone_angle_with`].
    pub fn from_mach_and_cone_angle(
        upstream_mach: Fixed,
        cone_angle: Fixed,
        specific_heat_ratio: Fixed,
    ) -> (r: Result<SupersonicCone, IsentropicFlowError>)
        ensures
            cone_values(r) == Self::from_mach_and_cone_angle_with_spec(
                upstream_mach,
                cone_angle,
                specific_heat_ratio,
                None,
                None,
                None,
            ),
            r matches Ok(cone) ==> cone@.well_formed(),
            r matches Ok(cone) ==> cone@.cone_angle.minus(cone_angle).abs().le(
                search_slack_spec(cone@.shock_angle, None, None),
            ),
    {
        SupersonicCone::from_mach_and_cone_angle_with(
            upstream_mach,
            cone_angle,
            specific_heat_ratio,
            None,
            None,
            None,
        )
    }

    /// The value that `from_mach_and_surface_mach_with` returns.
    pub open spec fn from_mach_and_surface_mach_with_spec(
        upstream_mach: Fixed,
        surface_mach: Fixed,
        specific_heat_ratio: Fixed,
        steps: Option<i32>,
        tolerance: Option<Fixed>,
        max_iters: Option<u16>,
    ) -> Result<SupersonicConeValues, IsentropicFlowError> {
        let mach_angle = calc_mach_angle_from_mach_spec(upstream_mach);
        if !valid_specific_heat_ratio(specific_heat_ratio) {
            Err(IsentropicFlowError::InvalidSpecificHeatRatio)
        } else if !upstream_mach.gt(Fixed::one()) {
            Err(IsentropicFlowError::InvalidMachNumber)
        } else if !(surface_mach.gt(Fixed::zero()) && surface_mach.lt(upstream_mach)) {
            Err(IsentropicFlowError::InvalidMachNumber)
        } else if mach_angle is Err {
            Err(mach_angle->Err_0)
        } else {
            match bisection_spec(
                surface_mach_residual(upstream_mach, surface_mach, specific_heat_ratio, steps),
                mach_angle->Ok_0,
                Fixed::half_pi(),
                tolerance,
                max_iters,
            ) {
                Ok(shock_angle) => accept_surface_mach(
                    Self::from_mach_and_shock_angle_with_steps_spec(
                        upstream_mach,
                        shock_angle,
                        specific_heat_ratio,
                        steps,
                    ),
                    surface_mach,
                    upstream_mach.times(search_slack_spec(shock_angle, steps, tolerance)),
                ),
                Err(e) => Err(e),
            }
        }
    }

    /// The flow over the cone on whose surface the Mach number is
    /// `surface_mach`, with the number of integration steps, the tolerance and
    /// the iteration cap given.
    ///
    /// The specific-heat ratio must exceed one, the upstream Mach number must
    /// exceed one, and the surface Mach number must lie strictly between zero
    /// and the upstream one. The shock angle is found by bisection between
    /// the Mach angle and a quarter turn on [`surface_mach_residual`]; the
    /// flow is then built at that shock angle. The surface Mach number of
    /// the flow that is returned differs from the one asked for by no more
    /// than the upstream Mach number times [`search_slack`]; where the
    /// search ends at a shock angle whose cone lies further off, no attached
    /// shock of the search gives the surface Mach number, and the result is
    /// `DomainError`.
    pub fn from_mach_and_surface_mach_with(
        upstream_mach: Fixed,
        surface_mach: Fixed,
        specific_heat_ratio: Fixed,
        steps: Option<i32>,
        tolerance: Option<Fixed>,
        max_iters: Option<u16>,
    ) -> (r: Result<SupersonicCone, IsentropicFlowError>)
        ensures
            cone_values(r) == Self::from_mach_and_surface_mach_with_spec(
                upstream_mach,
                surface_mach,
                specific_heat_ratio,
                steps,
                tolerance,
                max_iters,
            ),
            r matches Ok(cone) ==> cone@.well_formed(),
            r matches Ok(cone) ==> cone@.surface_mach.minus(surface_mach).abs().le(
                upstream_mach.times(search_slack_spec(cone@.shock_angle, steps, tolerance)),
            ),
    {
        if !valid_specific_heat_ratio(specific_heat_ratio) {
            return Err(IsentropicFlowError::InvalidSpecificHeatRatio);
        }
        if !upstream_mach.gt(Fixed::one()) {
            return Err(IsentropicFlowError::InvalidMachNumber);
        }
        if !(surface_mach.gt(Fixed::zero()) && surface_mach.lt(upstream_mach)) {
            return Err(IsentropicFlowError::InvalidMachNumber);
        }
        let mach_angle = calc_mach_angle_from_mach(upstream_mach)?;
        let residual = |shock_angle: Fixed| -> (y: Fixed)
            ensures
                y == surface_mach_residual(upstream_mach, surface_mach, specific_heat_ratio, steps)(
                    shock_angle,
                ),
            {
                if too_steep(upstream_mach, shock_angle, specific_heat_ratio) {
                    Fixed::one().neg()
                } else {
                    match cone_surface_from_shock(upstream_mach, shock_angle, specific_heat_ratio, steps) {
                        Ok(surface) => surface.surface_mach.minus(surface_mach),
                        Err(IsentropicFlowError::UndeterminedCrossing) => upstream_mach.minus(
                            surface_mach,
                        ),
                        Err(_) => Fixed::one().neg(),
                    }
                }
            };
        assert(computes(
            &residual,
            surface_mach_residual(upstream_mach, surface_mach, specific_heat_ratio, steps),
        ));
        let shock_angle = bisection(&residual, mach_angle, Fixed::half_pi(), tolerance, max_iters)?;
        let found = SupersonicCone::from_mach_and_shock_angle_with_steps(
            upstream_mach,
            shock_angle,
            specific_heat_ratio,
            steps,
        );
        let slack = upstream_mach.times(search_slack(shock_angle, steps, tolerance));
        accepted_by_surface_mach(found, surface_mach, slack)
    }

    /// The flow over the cone on whose surface the Mach number is
    /// `surface_mach`, with [`DEFAULT_STEPS`] integration steps and the
    /// default tolerance and iteration cap; see
    /// [`SupersonicCone::from_mach_and_surface_mach_with`].
    pub fn from_mach_and_surface_mach(
        upstream_mach: Fixed,
        surface_mach: Fixed,
        specific_heat_ratio: Fixed,
    ) -> (r: Result<SupersonicCone, IsentropicFlowError>)
        ensures
            cone_values(r) == Self::from_mach_and_surface_mach_with_spec(
                upstream_mach,
                surface_mach,
                specific_heat_ratio,
                None,
                None,
                None,
            ),
            r matches Ok(cone) ==> cone@.well_formed(),
            r matches Ok(cone) ==> cone@.surface_mach.minus(surface_mach).abs().le(
                upstream_mach.times(search_slack_spec(cone@.shock_angle, None, None)),
            ),
    {
        SupersonicCone::from_mach_and_surface_mach_with(
            upstream_mach,
            surface_mach,
            specific_heat_ratio,
            None,
            None,
            None,
        )
    }

    /// The quantity that `output` names.
    pub open spec fn select(values: SupersonicConeValues, output: Output) -> Fixed {
        match output {
            Output::SurfaceMachNumber => values.surface_mach,
            Output::ConeAngle => values.cone_angle,
            Output::ShockAngle => values.shock_angle,
            Output::ShockTurnAngle => values.shock_turn_angle,
            Output::PressureRatio => values.pressure_ratio,
            Output::DensityRatio => values.density_ratio,
            Output::TemperatureRatio => values.temperature_ratio,
            Output::StagnationPressureRatio => values.stagnation_pressure_ratio,
            Output::SurfacePressureRatio => values.surface_pressure_ratio,
            Output::SurfaceDensityRatio => values.surface_density_ratio,
            Output::SurfaceTemperatureRatio => values.surface_temperature_ratio,
            Output::SurfaceStagnationPressureratio => values.surface_stagnation_pressure_ratio,
        }
    }

    /// The quantity that `output` names.
    pub fn get(&self, output: Output) -> (v: Fixed)
        ensures
            v == Self::select(self@, output),
    {
        match output {
            Output::SurfaceMachNumber => self.surface_mach,
            Output::ConeAngle => self.cone_angle,
            Output::ShockAngle => self.shock_angle,
            Output::ShockTurnAngle => self.shock_turn_angle,
            Output::PressureRatio => self.pressure_ratio,
            Output::DensityRatio => self.density_ratio,
            Output::TemperatureRatio => self.temperature_ratio,
            Output::StagnationPressureRatio => self.stagnation_pressure_ratio,
            Output::SurfacePressureRatio => self.surface_pressure_ratio,
            Output::SurfaceDensityRatio => self.surface_density_ratio,
            Output::SurfaceTemperatureRatio => self.surface_temperature_ratio,
            Output::SurfaceStagnationPressureratio => self.surface_stagnation_pressure_ratio,
        }
    }
}

} // verus!
