use compressible_flow::fixed::Fixed;
use compressible_flow::isentropic::IsentropicFlowError;
use compressible_flow::numerics::{
    bisection, default_step_tolerance, default_tolerance, newton_raphson, runge_kutta_fourth_order,
    runge_kutta_fourth_order_step, same_sign, singular, solve_root, RootStart,
};

const SCALE: f64 = 1099511627776.0;

fn fx(x: f64) -> Fixed {
    Fixed::from_raw((x * SCALE).round() as i64)
}

fn fl(x: Fixed) -> f64 {
    assert!(x.is_defined());
    x.to_raw() as f64 / SCALE
}

fn cubic(x: Fixed) -> Fixed {
    // x^3 - 2 x - 5, with a single real root near 2.0945514815
    x.squared().times(x).minus(x.twice()).minus(Fixed::from_int(5))
}

fn cubic_slope(x: Fixed) -> Fixed {
    x.squared().times_int(3).minus(Fixed::from_int(2))
}

#[test]
fn bisection_finds_square_root_of_two() {
    let c = fx(2.0);
    let root = bisection(&|x: Fixed| x.squared().minus(c), fx(0.0), fx(2.0), None, None).unwrap();
    assert!((fl(root) - 2.0f64.sqrt()).abs() < 1e-8);
}

#[test]
fn bisection_root_lies_in_bracket_and_meets_tolerance() {
    let brackets = [(2.0, 3.0), (3.0, 2.0), (0.0, 10.0), (-5.0, 2.5), (2.09, 2.1)];
    for (a, b) in brackets {
        for tolerance in [1e-3, 1e-6, 1e-9] {
            let root = bisection(&cubic, fx(a), fx(b), Some(fx(tolerance)), None).unwrap();
            let low = if a < b { a } else { b };
            let high = if a < b { b } else { a };
            assert!(fl(root) >= low && fl(root) <= high);
            let residual = fl(cubic(root)).abs();
            let distance = (fl(root) - 2.0945514815423265).abs();
            assert!(residual < tolerance || distance < 2.0 * tolerance + 1e-11);
        }
    }
}

#[test]
fn bisection_calls_the_function_between_the_bounds_only() {
    let low = fx(2.0);
    let high = fx(3.0);
    let guarded = |x: Fixed| {
        assert!(low.le(x) && x.le(high));
        cubic(x)
    };
    let root = bisection(&guarded, high, low, None, None).unwrap();
    assert!((fl(root) - 2.0945514815423265).abs() < 1e-8);
}

#[test]
fn bisection_accepts_a_small_function_value_at_once() {
    let root = bisection(&|x: Fixed| x, fx(-1.0), fx(1.0), None, None).unwrap();
    assert_eq!(root, fx(0.0));
}

#[test]
fn bisection_reports_non_convergence() {
    let c = fx(2.0);
    let r = bisection(&|x: Fixed| x.squared().minus(c), fx(0.0), fx(2.0), None, Some(3));
    assert_eq!(r, Err(IsentropicFlowError::NonConvergence));
    let r = bisection(&|x: Fixed| x.squared().minus(c), fx(0.0), fx(2.0), None, Some(0));
    assert_eq!(r, Err(IsentropicFlowError::NonConvergence));
}

#[test]
fn bisection_never_runs_out_with_default_cap() {
    // no sign change at all: the bracket still shrinks below the tolerance
    let r = bisection(&|x: Fixed| x.squared().plus(Fixed::one()), fx(-2000.0), fx(2500.0), None, None);
    assert!(r.is_ok());
    let r = bisection(
        &|x: Fixed| x.squared().plus(Fixed::one()),
        Fixed::from_raw(-i64::MAX),
        Fixed::from_raw(i64::MAX),
        Some(Fixed::from_raw(2)),
        Some(64),
    );
    assert!(r != Err(IsentropicFlowError::NonConvergence));
}

#[test]
fn bisection_reports_domain_errors() {
    let r = bisection(&cubic, Fixed::undefined(), fx(2.0), None, None);
    assert_eq!(r, Err(IsentropicFlowError::DomainError));
    let r = bisection(&cubic, fx(2.0), Fixed::undefined(), None, None);
    assert_eq!(r, Err(IsentropicFlowError::DomainError));
    let r = bisection(&cubic, fx(2.0), fx(3.0), Some(Fixed::undefined()), None);
    assert_eq!(r, Err(IsentropicFlowError::DomainError));
    let r = bisection(&|x: Fixed| x.sqrt().minus(Fixed::one()), fx(-4.0), fx(1.0), None, None);
    assert_eq!(r, Err(IsentropicFlowError::DomainError));
    let r = bisection(&|x: Fixed| x.sqrt().minus(Fixed::one()), fx(-1.0), fx(9.0), None, None);
    assert_eq!(r, Err(IsentropicFlowError::DomainError));
}

#[test]
fn newton_converges_to_square_root() {
    for c in [0.01, 0.5, 2.0, 9.0, 123.456, 1000.0] {
        for guess in [0.5, 1.0, 7.5, 40.0, 2000.0] {
            let target = fx(c);
            let root = newton_raphson(
                &|x: Fixed| x.squared().minus(target),
                &|x: Fixed| x.twice(),
                fx(guess),
                None,
                None,
            )
            .unwrap();
            assert!((fl(root) - c.sqrt()).abs() < 1e-9, "root of {} from {}: {}", c, guess, fl(root));
        }
    }
}

#[test]
fn newton_square_root_is_within_one_raw_unit() {
    for c in [1.0, 1.5, 2.0, 10.0, 1000.0, 2048.0] {
        for guess in [1.0, 3.0, 50.0, 2048.0] {
            for tolerance in [8i64, 1100, 0x8_0000] {
                let target = fx(c);
                let root = newton_raphson(
                    &|x: Fixed| x.squared().minus(target),
                    &|x: Fixed| x.twice(),
                    fx(guess),
                    Some(Fixed::from_raw(tolerance)),
                    Some(64),
                )
                .unwrap();
                let distance = root.to_raw() - target.sqrt().to_raw();
                assert!(distance.abs() <= 1, "root of {} from {}: off by {}", c, guess, distance);
            }
        }
    }
}

#[test]
fn newton_square_root_is_within_the_tolerance() {
    for c in [0.001, 0.0123, 0.5, 1.0, 7.0, 2048.0] {
        for guess in [0.001, 0.03, 1.0, 90.0, 2048.0] {
            if c / guess > 2048.0 {
                continue;
            }
            for tolerance in [64i64, 1099, 1 << 30, 1 << 41] {
                let target = fx(c);
                let root = newton_raphson(
                    &|x: Fixed| x.squared().minus(target),
                    &|x: Fixed| x.twice(),
                    fx(guess),
                    Some(Fixed::from_raw(tolerance)),
                    Some(64),
                )
                .unwrap();
                let distance = root.to_raw() - target.sqrt().to_raw();
                assert!(root.to_raw() > 0);
                assert!(
                    distance.abs() <= tolerance,
                    "root of {} from {} at tolerance {}: off by {}",
                    c,
                    guess,
                    tolerance,
                    distance
                );
            }
        }
    }
}

#[test]
fn newton_square_root_needs_a_tolerance_above_the_rounding() {
    // near a thousandth one rounding of the step moves the iterate by several raw units
    let target = Fixed::from_raw(1076030415);
    let r = newton_raphson(
        &|x: Fixed| x.squared().minus(target),
        &|x: Fixed| x.twice(),
        Fixed::from_raw(0x8_0000_0000),
        Some(Fixed::from_raw(8)),
        None,
    );
    assert_eq!(r, Err(IsentropicFlowError::NonConvergence));
}

#[test]
fn newton_square_root_leaves_the_range_from_a_small_guess() {
    let target = fx(1000.0);
    let r = newton_raphson(
        &|x: Fixed| x.squared().minus(target),
        &|x: Fixed| x.twice(),
        fx(0.001),
        None,
        None,
    );
    assert_eq!(r, Err(IsentropicFlowError::DomainError));
}

#[test]
fn newton_finds_the_root_of_a_cubic() {
    let root = newton_raphson(&cubic, &cubic_slope, fx(2.0), None, None).unwrap();
    assert!((fl(root) - 2.0945514815423265).abs() < 1e-10);
    let coarse = newton_raphson(&cubic, &cubic_slope, fx(2.0), Some(fx(0.5)), None).unwrap();
    assert_eq!(coarse, fx(2.0).minus(cubic(fx(2.0)).over(cubic_slope(fx(2.0)))));
}

#[test]
fn newton_reports_each_failure() {
    let c = fx(2.0);
    let r = newton_raphson(&|x: Fixed| x.squared().minus(c), &|x: Fixed| x.twice(), fx(0.0), None, None);
    assert_eq!(r, Err(IsentropicFlowError::SingularDerivative));
    let r = newton_raphson(
        &|x: Fixed| x.squared().minus(c),
        &|_x: Fixed| Fixed::from_raw(1),
        fx(1.0),
        None,
        None,
    );
    assert_eq!(r, Err(IsentropicFlowError::SingularDerivative));
    let r = newton_raphson(
        &|x: Fixed| x.squared().minus(c),
        &|_x: Fixed| Fixed::undefined(),
        fx(1.0),
        None,
        None,
    );
    assert_eq!(r, Err(IsentropicFlowError::SingularDerivative));
    let r = newton_raphson(&|x: Fixed| x.squared().minus(c), &|x: Fixed| x.twice(), fx(100.0), None, Some(2));
    assert_eq!(r, Err(IsentropicFlowError::NonConvergence));
    let r = newton_raphson(&|x: Fixed| x.squared().minus(c), &|x: Fixed| x.twice(), Fixed::undefined(), None, None);
    assert_eq!(r, Err(IsentropicFlowError::DomainError));
    let r = newton_raphson(&|x: Fixed| x.squared().minus(c), &|x: Fixed| x.twice(), fx(5000.0), None, None);
    assert_eq!(r, Err(IsentropicFlowError::DomainError));
    // x^2 + 1 has no root: the iteration wanders until the cap
    let r = newton_raphson(
        &|x: Fixed| x.squared().plus(Fixed::one()),
        &|x: Fixed| x.twice(),
        fx(0.7),
        None,
        Some(50),
    );
    assert!(r.is_err());
}

#[test]
fn solve_root_chooses_the_method() {
    let by_bracket = solve_root(
        &cubic,
        None::<&fn(Fixed) -> Fixed>,
        RootStart::Bracket(fx(2.0), fx(3.0)),
        None,
        None,
    );
    assert_eq!(by_bracket, bisection(&cubic, fx(2.0), fx(3.0), None, None));
    let by_guess = solve_root(&cubic, Some(&cubic_slope), RootStart::Guess(fx(2.0)), None, None);
    assert_eq!(by_guess, newton_raphson(&cubic, &cubic_slope, fx(2.0), None, None));
    let no_slope = solve_root(
        &cubic,
        None::<&fn(Fixed) -> Fixed>,
        RootStart::Guess(fx(2.0)),
        None,
        None,
    );
    assert_eq!(no_slope, Err(IsentropicFlowError::DomainError));
}

#[test]
fn helpers_have_their_exact_values() {
    assert_eq!(default_tolerance().to_raw(), 1100);
    assert_eq!(default_step_tolerance().to_raw(), 1099);
    assert!(same_sign(fx(1.0), fx(3.0)));
    assert!(same_sign(fx(-1.0), fx(-3.0)));
    assert!(!same_sign(fx(-1.0), fx(3.0)));
    assert!(!same_sign(fx(0.0), fx(3.0)));
    assert!(!same_sign(Fixed::undefined(), fx(3.0)));
    assert!(singular(Fixed::from_raw(0)));
    assert!(singular(Fixed::from_raw(-1)));
    assert!(!singular(Fixed::from_raw(2)));
    assert!(singular(Fixed::undefined()));
}

#[test]
fn runge_kutta_step_has_the_classical_weights() {
    // y1' = y2, y2' = y2: one step multiplies y2 by 1 + h + h^2/2 + h^3/6 + h^4/24
    let h: f64 = 0.1;
    let (y1, y2) =
        runge_kutta_fourth_order_step(&|_r: Fixed, _y1: Fixed, y2: Fixed| y2, fx(0.0), fx(0.0), fx(1.0), fx(h));
    let growth = 1.0 + h + h * h / 2.0 + h.powi(3) / 6.0 + h.powi(4) / 24.0;
    assert!((fl(y2) - growth).abs() < 1e-10);
    // y1 gains the integral of y2 over the step, in the same weights
    let gain = h * (1.0 + h / 2.0 + h * h / 6.0 + h.powi(3) / 24.0);
    assert!((fl(y1) - gain).abs() < 1e-10);
    // the slope is sampled at r, r + h/2, r + h/2 and r + h
    let (_, by_r) = runge_kutta_fourth_order_step(
        &|r: Fixed, _y1: Fixed, _y2: Fixed| r,
        fx(1.0),
        fx(0.0),
        fx(0.0),
        fx(0.5),
    );
    assert!((fl(by_r) - 0.5 * (1.0 + 2.0 * 1.25 + 2.0 * 1.25 + 1.5) / 6.0).abs() < 1e-11);
}

fn exponential_error(steps: u32) -> f64 {
    let h = Fixed::one().div_int(steps as i64);
    let (at, _, y2) = runge_kutta_fourth_order(
        &|_r: Fixed, _y1: Fixed, y2: Fixed| y2,
        fx(0.0),
        fx(0.0),
        fx(1.0),
        h,
        steps,
    );
    assert!((fl(at) - 1.0).abs() < 1e-9);
    (fl(y2) - 1.0f64.exp()).abs()
}

#[test]
fn runge_kutta_converges_at_fourth_order() {
    let mut previous = exponential_error(2);
    for steps in [4u32, 8, 16, 32] {
        let error = exponential_error(steps);
        let ratio = previous / error;
        assert!(ratio > 12.0 && ratio < 20.0, "error ratio {} at {} steps", ratio, steps);
        previous = error;
    }
    assert!(exponential_error(64) < 2e-9);
}

#[test]
fn runge_kutta_march_applies_the_taylor_polynomial_step_after_step() {
    for steps in [1u32, 4, 16, 64, 256] {
        let h = Fixed::one().div_int(steps as i64);
        let (_, _, y2) = runge_kutta_fourth_order(
            &|_r: Fixed, _y1: Fixed, y2: Fixed| y2,
            fx(0.0),
            fx(0.0),
            fx(1.0),
            h,
            steps,
        );
        let step = fl(h);
        let factor = 1.0 + step + step * step / 2.0 + step.powi(3) / 6.0 + step.powi(4) / 24.0;
        let ideal = factor.powi(steps as i32);
        // two raw units a step, each grown by the steps that follow
        let slack = 2.0 * (steps as f64) * ideal + 1.0;
        assert!((y2.to_raw() as f64 - ideal * SCALE).abs() <= slack, "{} steps", steps);
    }
}

#[test]
fn runge_kutta_without_steps_returns_the_start() {
    let state = runge_kutta_fourth_order(
        &|_r: Fixed, _y1: Fixed, y2: Fixed| y2,
        fx(0.25),
        fx(2.0),
        fx(3.0),
        fx(0.1),
        0,
    );
    assert_eq!(state, (fx(0.25), fx(2.0), fx(3.0)));
}
