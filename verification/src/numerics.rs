//! Root finding in one dimension and the classical Runge-Kutta step.
//!
//! The solvers know nothing of gas dynamics: they take any closure from
//! number to number. A closure that [`computes`] a mathematical function `g`
//! gets an exact answer: each solver is specified by a recursive spec function
//! over `g` that says which value or failure it returns after how many
//! iterations, and the laws further down are proved from those definitions.

use vstd::prelude::*;
use vstd::arithmetic::power2::{lemma2_to64, lemma_pow2_unfold, pow2};
use crate::fixed::Fixed;
use crate::isentropic::IsentropicFlowError;

verus! {

/// Raw representation of the tolerance against which bisection compares when
/// none is given. One part in a billion is not a fixed-point number; this is
/// the least number above it, so that being strictly below this number and
/// being strictly below one part in a billion are the same thing.
pub const DEFAULT_TOLERANCE_RAW: i64 = 1100;

/// Raw representation of the tolerance against which Newton-Raphson compares
/// when none is given: the greatest number below one part in a billion, so
/// that being at most this number and being at most one part in a billion are
/// the same thing.
pub const DEFAULT_STEP_TOLERANCE_RAW: i64 = 1099;

/// Iteration cap used when none is given.
pub const DEFAULT_MAX_ITERATIONS: u16 = 200;

/// Raw representation of the magnitude below which Newton-Raphson treats a
/// derivative as singular. The numbers whose magnitude is below one part in a
/// million million are zero and the two numbers next to it: those of raw
/// magnitude below two.
pub const SINGULAR_DERIVATIVE_RAW: i64 = 2;

/// The closure `f` computes the mathematical function `g`: whatever a call of
/// `f` returns is the value of `g` at the argument.
pub open spec fn computes<F: Fn(Fixed) -> Fixed>(f: &F, g: spec_fn(Fixed) -> Fixed) -> bool {
    forall|x: Fixed, y: Fixed| #[trigger] call_ensures(f, (x,), y) ==> y == g(x)
}

/// The closure `f` computes the mathematical function `g` of three arguments.
pub open spec fn computes_slope<F: Fn(Fixed, Fixed, Fixed) -> Fixed>(
    f: &F,
    g: spec_fn(Fixed, Fixed, Fixed) -> Fixed,
) -> bool {
    forall|r: Fixed, y1: Fixed, y2: Fixed, d: Fixed| #[trigger]
        call_ensures(f, (r, y1, y2), d) ==> d == g(r, y1, y2)
}

/// The closure `f` may be called on every number.
pub open spec fn total<F: Fn(Fixed) -> Fixed>(f: &F) -> bool {
    forall|x: Fixed| #[trigger] call_requires(f, (x,))
}

/// The closure `f` may be called on every number between the two bounds
/// `x1` and `x2`, in either order.
pub open spec fn callable_between<F: Fn(Fixed) -> Fixed>(f: &F, x1: Fixed, x2: Fixed) -> bool {
    forall|x: Fixed|
        lower_bound(x1, x2).le(x) && x.le(upper_bound(x1, x2)) ==> #[trigger] call_requires(
            f,
            (x,),
        )
}

/// The closure `f` may be called on every triple of numbers.
pub open spec fn total_slope<F: Fn(Fixed, Fixed, Fixed) -> Fixed>(f: &F) -> bool {
    forall|r: Fixed, y1: Fixed, y2: Fixed| #[trigger] call_requires(f, (r, y1, y2))
}

/// The value that `default_tolerance` returns.
pub open spec fn default_tolerance_spec() -> Fixed {
    Fixed { bits: DEFAULT_TOLERANCE_RAW }
}

/// The tolerance used when a caller gives none.
#[verifier::when_used_as_spec(default_tolerance_spec)]
pub fn default_tolerance() -> (t: Fixed)
    ensures
        t == default_tolerance_spec(),
{
    Fixed { bits: DEFAULT_TOLERANCE_RAW }
}

/// The tolerance in force for a call.
pub open spec fn tolerance_or_default(tolerance: Option<Fixed>) -> Fixed {
    match tolerance {
        Some(t) => t,
        None => default_tolerance_spec(),
    }
}

/// The value that `default_step_tolerance` returns.
pub open spec fn default_step_tolerance_spec() -> Fixed {
    Fixed { bits: DEFAULT_STEP_TOLERANCE_RAW }
}

/// The tolerance that Newton-Raphson uses when a caller gives none.
#[verifier::when_used_as_spec(default_step_tolerance_spec)]
pub fn default_step_tolerance() -> (t: Fixed)
    ensures
        t == default_step_tolerance_spec(),
{
    Fixed { bits: DEFAULT_STEP_TOLERANCE_RAW }
}

/// The tolerance in force for a call of Newton-Raphson.
pub open spec fn step_tolerance_or_default(tolerance: Option<Fixed>) -> Fixed {
    match tolerance {
        Some(t) => t,
        None => default_step_tolerance_spec(),
    }
}

/// The iteration cap in force for a call.
pub open spec fn iterations_or_default(max_iters: Option<u16>) -> nat {
    match max_iters {
        Some(n) => n as nat,
        None => DEFAULT_MAX_ITERATIONS as nat,
    }
}

/// Both numbers are strictly positive or both strictly negative.
pub open spec fn same_sign_spec(a: Fixed, b: Fixed) -> bool {
    (a.gt(Fixed::zero()) && b.gt(Fixed::zero())) || (a.lt(Fixed::zero()) && b.lt(Fixed::zero()))
}

/// Both numbers are strictly positive or both strictly negative.
#[verifier::when_used_as_spec(same_sign_spec)]
pub fn same_sign(a: Fixed, b: Fixed) -> (s: bool)
    ensures
        s == same_sign_spec(a, b),
{
    (a.gt(Fixed::zero()) && b.gt(Fixed::zero())) || (a.lt(Fixed::zero()) && b.lt(Fixed::zero()))
}

/// Where a bisection ended: its result and the bracket it held at that moment.
pub struct BisectionRun {
    pub outcome: Result<Fixed, IsentropicFlowError>,
    pub lower: Fixed,
    pub upper: Fixed,
}

/// Whether a bracket's midpoint is accepted as the root.
pub open spec fn bisection_converged(
    g: spec_fn(Fixed) -> Fixed,
    lower: Fixed,
    upper: Fixed,
    tolerance: Fixed,
) -> bool {
    g(lower.midpoint(upper)).abs().lt(tolerance) || upper.minus(lower).half().lt(tolerance)
}

/// Bisection on the bracket `[lower, upper]` with `iterations` iterations left.
///
/// Each iteration takes the midpoint. An undefined function value there is a
/// domain error. The midpoint is the root when the function is smaller than the
/// tolerance there, or when half the bracket is. Otherwise the bound at which
/// the function has the midpoint's sign moves to the midpoint.
pub open spec fn bisection_run(
    g: spec_fn(Fixed) -> Fixed,
    lower: Fixed,
    upper: Fixed,
    tolerance: Fixed,
    iterations: nat,
) -> BisectionRun
    decreases iterations,
{
    let midpoint = lower.midpoint(upper);
    if iterations == 0 {
        BisectionRun { outcome: Err(IsentropicFlowError::NonConvergence), lower, upper }
    } else if !g(midpoint).defined() {
        BisectionRun { outcome: Err(IsentropicFlowError::DomainError), lower, upper }
    } else if bisection_converged(g, lower, upper, tolerance) {
        BisectionRun { outcome: Ok(midpoint), lower, upper }
    } else if !g(lower).defined() {
        BisectionRun { outcome: Err(IsentropicFlowError::DomainError), lower, upper }
    } else if same_sign(g(midpoint), g(lower)) {
        bisection_run(g, midpoint, upper, tolerance, (iterations - 1) as nat)
    } else {
        bisection_run(g, lower, midpoint, tolerance, (iterations - 1) as nat)
    }
}

/// The smaller of two bounds.
pub open spec fn lower_bound(x1: Fixed, x2: Fixed) -> Fixed {
    if x1.lt(x2) {
        x1
    } else {
        x2
    }
}

/// The larger of two bounds.
pub open spec fn upper_bound(x1: Fixed, x2: Fixed) -> Fixed {
    if x1.lt(x2) {
        x2
    } else {
        x1
    }
}

/// What [`bisection`] returns.
pub open spec fn bisection_spec(
    g: spec_fn(Fixed) -> Fixed,
    x1: Fixed,
    x2: Fixed,
    tolerance: Option<Fixed>,
    max_iters: Option<u16>,
) -> Result<Fixed, IsentropicFlowError> {
    if !x1.defined() || !x2.defined() || !tolerance_or_default(tolerance).defined() {
        Err(IsentropicFlowError::DomainError)
    } else {
        bisection_run(
            g,
            lower_bound(x1, x2),
            upper_bound(x1, x2),
            tolerance_or_default(tolerance),
            iterations_or_default(max_iters),
        ).outcome
    }
}

/// A root returned by bisection lies in the bracket the search started from,
/// is the midpoint of the bracket the search ended on, and was accepted
/// because the function or half that last bracket is smaller than the
/// tolerance. A search that fails ran out of iterations or met an undefined
/// function value.
pub proof fn lemma_bisection_root_bracketed(
    g: spec_fn(Fixed) -> Fixed,
    lower: Fixed,
    upper: Fixed,
    tolerance: Fixed,
    iterations: nat,
)
    requires
        lower.le(upper),
    ensures
        ({
            let run = bisection_run(g, lower, upper, tolerance, iterations);
            &&& lower.le(run.lower)
            &&& run.lower.le(run.upper)
            &&& run.upper.le(upper)
            &&& run.outcome is Err ==> run.outcome->Err_0 == IsentropicFlowError::NonConvergence
                || run.outcome->Err_0 == IsentropicFlowError::DomainError
            &&& run.outcome is Ok ==> {
                let root = run.outcome->Ok_0;
                &&& root == run.lower.midpoint(run.upper)
                &&& run.lower.le(root)
                &&& root.le(run.upper)
                &&& g(root).defined()
                &&& g(root).abs().lt(tolerance) || run.upper.minus(run.lower).half().lt(
                    tolerance,
                )
            }
        }),
    decreases iterations,
{
    let midpoint = lower.midpoint(upper);
    if iterations == 0 {
    } else if !g(midpoint).defined() {
    } else if bisection_converged(g, lower, upper, tolerance) {
    } else if !g(lower).defined() {
    } else if same_sign(g(midpoint), g(lower)) {
        lemma_bisection_root_bracketed(g, midpoint, upper, tolerance, (iterations - 1) as nat);
    } else {
        lemma_bisection_root_bracketed(g, lower, midpoint, tolerance, (iterations - 1) as nat);
    }
}

/// Bisection keeps a sign change inside its bracket: when the function has
/// strictly opposite signs at the two starting bounds and the tolerance is
/// positive, it has strictly opposite signs at the bounds of every later
/// bracket, the last one included.
pub proof fn lemma_bisection_keeps_sign_change(
    g: spec_fn(Fixed) -> Fixed,
    lower: Fixed,
    upper: Fixed,
    tolerance: Fixed,
    iterations: nat,
)
    requires
        lower.le(upper),
        tolerance.gt(Fixed::zero()),
        same_sign(g(lower), g(upper).neg()),
    ensures
        ({
            let run = bisection_run(g, lower, upper, tolerance, iterations);
            same_sign(g(run.lower), g(run.upper).neg())
        }),
    decreases iterations,
{
    let midpoint = lower.midpoint(upper);
    if iterations == 0 {
    } else if !g(midpoint).defined() {
    } else if bisection_converged(g, lower, upper, tolerance) {
    } else if !g(lower).defined() {
    } else if same_sign(g(midpoint), g(lower)) {
        lemma_bisection_keeps_sign_change(g, midpoint, upper, tolerance, (iterations - 1) as nat);
    } else {
        lemma_bisection_keeps_sign_change(g, lower, midpoint, tolerance, (iterations - 1) as nat);
    }
}

/// Bisection keeps the direction of a sign change: where the function is
/// negative at the lower bound and positive at the upper one, it is so at
/// the two ends of the bracket that the run ends on.
pub proof fn lemma_bisection_keeps_direction(
    g: spec_fn(Fixed) -> Fixed,
    lower: Fixed,
    upper: Fixed,
    tolerance: Fixed,
    iterations: nat,
)
    requires
        lower.le(upper),
        tolerance.gt(Fixed::zero()),
        g(lower).lt(Fixed::zero()),
        g(upper).gt(Fixed::zero()),
    ensures
        ({
            let run = bisection_run(g, lower, upper, tolerance, iterations);
            g(run.lower).lt(Fixed::zero()) && g(run.upper).gt(Fixed::zero())
        }),
    decreases iterations,
{
    let midpoint = lower.midpoint(upper);
    if iterations == 0 {
    } else if !g(midpoint).defined() {
    } else if bisection_converged(g, lower, upper, tolerance) {
    } else if same_sign(g(midpoint), g(lower)) {
        lemma_bisection_keeps_direction(g, midpoint, upper, tolerance, (iterations - 1) as nat);
    } else {
        lemma_bisection_keeps_direction(g, lower, midpoint, tolerance, (iterations - 1) as nat);
    }
}

/// Bisection does not run out of iterations on a bracket narrow enough for
/// its cap: with a tolerance of at least two raw units, a bracket no wider
/// than `2^n` raw units is decided within `n` iterations.
pub proof fn lemma_bisection_decides_within(
    g: spec_fn(Fixed) -> Fixed,
    lower: Fixed,
    upper: Fixed,
    tolerance: Fixed,
    iterations: nat,
    n: nat,
)
    requires
        lower.le(upper),
        tolerance.defined(),
        tolerance.raw() >= 2,
        n >= 1,
        iterations >= n,
        upper.raw() - lower.raw() <= pow2(n),
    ensures
        bisection_run(g, lower, upper, tolerance, iterations).outcome != Err::<
            Fixed,
            IsentropicFlowError,
        >(IsentropicFlowError::NonConvergence),
    decreases n,
{
    let midpoint = lower.midpoint(upper);
    lemma2_to64();
    lemma_pow2_unfold(n);
    if n == 1 {
        assert(pow2(1) == 2);
        assert(upper.minus(lower).half().lt(tolerance));
    } else if !g(midpoint).defined() {
    } else if bisection_converged(g, lower, upper, tolerance) {
    } else if !g(lower).defined() {
    } else if same_sign(g(midpoint), g(lower)) {
        lemma_bisection_decides_within(
            g,
            midpoint,
            upper,
            tolerance,
            (iterations - 1) as nat,
            (n - 1) as nat,
        );
    } else {
        lemma_bisection_decides_within(
            g,
            lower,
            midpoint,
            tolerance,
            (iterations - 1) as nat,
            (n - 1) as nat,
        );
    }
}

/// Bisection succeeds on a bracket narrow enough for its cap when the function
/// is defined on the whole bracket: with a tolerance of at least two raw
/// units, a bracket no wider than `2^n` raw units yields a root within `n`
/// iterations.
pub proof fn lemma_bisection_succeeds_within(
    g: spec_fn(Fixed) -> Fixed,
    lower: Fixed,
    upper: Fixed,
    tolerance: Fixed,
    iterations: nat,
    n: nat,
)
    requires
        lower.le(upper),
        tolerance.defined(),
        tolerance.raw() >= 2,
        n >= 1,
        iterations >= n,
        upper.raw() - lower.raw() <= pow2(n),
        forall|x: Fixed| lower.le(x) && x.le(upper) ==> (#[trigger] g(x)).defined(),
    ensures
        bisection_run(g, lower, upper, tolerance, iterations).outcome is Ok,
    decreases n,
{
    let midpoint = lower.midpoint(upper);
    lemma2_to64();
    lemma_pow2_unfold(n);
    assert(g(midpoint).defined());
    assert(g(lower).defined());
    if n == 1 {
        assert(pow2(1) == 2);
        assert(upper.minus(lower).half().lt(tolerance));
    } else if bisection_converged(g, lower, upper, tolerance) {
    } else if same_sign(g(midpoint), g(lower)) {
        lemma_bisection_succeeds_within(
            g,
            midpoint,
            upper,
            tolerance,
            (iterations - 1) as nat,
            (n - 1) as nat,
        );
    } else {
        lemma_bisection_succeeds_within(
            g,
            lower,
            midpoint,
            tolerance,
            (iterations - 1) as nat,
            (n - 1) as nat,
        );
    }
}

/// The law of bisection. On a function that is defined between the two
/// bounds, with a tolerance of at least two raw units and a cap of at least
/// 64 iterations, bisection returns a root; the root lies between the bounds;
/// and the function at the root, or half the bracket the search ended on, is
/// smaller than the tolerance.
pub proof fn lemma_bisection_returns_bracketed_root(
    g: spec_fn(Fixed) -> Fixed,
    x1: Fixed,
    x2: Fixed,
    tolerance: Option<Fixed>,
    max_iters: Option<u16>,
)
    requires
        x1.defined(),
        x2.defined(),
        tolerance_or_default(tolerance).defined(),
        tolerance_or_default(tolerance).raw() >= 2,
        iterations_or_default(max_iters) >= 64,
        forall|x: Fixed|
            lower_bound(x1, x2).le(x) && x.le(upper_bound(x1, x2)) ==> (#[trigger] g(x)).defined(),
    ensures
        ({
            let run = bisection_run(
                g,
                lower_bound(x1, x2),
                upper_bound(x1, x2),
                tolerance_or_default(tolerance),
                iterations_or_default(max_iters),
            );
            let r = bisection_spec(g, x1, x2, tolerance, max_iters);
            &&& r is Ok
            &&& lower_bound(x1, x2).le(r->Ok_0)
            &&& (r->Ok_0).le(upper_bound(x1, x2))
            &&& g(r->Ok_0).abs().lt(tolerance_or_default(tolerance)) || run.upper.minus(
                run.lower,
            ).half().lt(tolerance_or_default(tolerance))
        }),
{
    let lower = lower_bound(x1, x2);
    let upper = upper_bound(x1, x2);
    let tol = tolerance_or_default(tolerance);
    let cap = iterations_or_default(max_iters);
    lemma2_to64();
    lemma_bisection_succeeds_within(g, lower, upper, tol, cap, 64);
    lemma_bisection_root_bracketed(g, lower, upper, tol, cap);
}

/// Finds a root of `f` between `x1` and `x2` by bisection.
///
/// The caller vouches for a sign change between the bounds; it is not tested.
/// The tolerance defaults to [`DEFAULT_TOLERANCE_RAW`] and the iteration cap to
/// [`DEFAULT_MAX_ITERATIONS`]. Whatever `f` returns, a root that is returned
/// lies between the two bounds. Where `f` computes a function `g`, the result
/// is exactly [`bisection_spec`] of `g`: the function at the root, or half the
/// last bracket, is then smaller than the tolerance, and with a tolerance of
/// two raw units or more and a cap of 64 or more the search never runs out of
/// iterations. The function is evaluated once at each midpoint and once at
/// the first lower bound; later lower bounds are earlier midpoints. It is
/// called between the two bounds only, and need not be callable elsewhere.
#[verifier::loop_isolation(false)]
pub fn bisection<F: Fn(Fixed) -> Fixed>(
    f: &F,
    x1: Fixed,
    x2: Fixed,
    tolerance: Option<Fixed>,
    max_iters: Option<u16>,
) -> (r: Result<Fixed, IsentropicFlowError>)
    requires
        callable_between(f, x1, x2),
    ensures
        r is Ok ==> lower_bound(x1, x2).le(r->Ok_0) && (r->Ok_0).le(upper_bound(x1, x2)),
        forall|g: spec_fn(Fixed) -> Fixed| #[trigger]
            computes(f, g) ==> {
                let run = bisection_run(
                    g,
                    lower_bound(x1, x2),
                    upper_bound(x1, x2),
                    tolerance_or_default(tolerance),
                    iterations_or_default(max_iters),
                );
                &&& r == bisection_spec(g, x1, x2, tolerance, max_iters)
                &&& r is Ok ==> g(r->Ok_0).abs().lt(tolerance_or_default(tolerance))
                    || run.upper.minus(run.lower).half().lt(tolerance_or_default(tolerance))
                &&& tolerance_or_default(tolerance).raw() >= 2 && iterations_or_default(max_iters)
                    >= 64 ==> r != Err::<Fixed, IsentropicFlowError>(
                    IsentropicFlowError::NonConvergence,
                )
            },
{
    let tol = match tolerance {
        Some(t) => t,
        None => default_tolerance(),
    };
    let cap: u16 = match max_iters {
        Some(n) => n,
        None => DEFAULT_MAX_ITERATIONS,
    };
    if !x1.is_defined() || !x2.is_defined() || !tol.is_defined() {
        return Err(IsentropicFlowError::DomainError);
    }
    let start_lower = if x1.lt(x2) { x1 } else { x2 };
    let start_upper = if x1.lt(x2) { x2 } else { x1 };
    proof {
        assert forall|g: spec_fn(Fixed) -> Fixed| #[trigger] computes(f, g) implies {
            let run = bisection_run(g, start_lower, start_upper, tol, cap as nat);
            &&& run.outcome is Ok ==> g(run.outcome->Ok_0).abs().lt(tol) || run.upper.minus(
                run.lower,
            ).half().lt(tol)
            &&& tol.raw() >= 2 && cap >= 64 ==> run.outcome != Err::<Fixed, IsentropicFlowError>(
                IsentropicFlowError::NonConvergence,
            )
        } by {
            lemma_bisection_root_bracketed(g, start_lower, start_upper, tol, cap as nat);
            if tol.raw() >= 2 && cap >= 64 {
                lemma2_to64();
                lemma_bisection_decides_within(g, start_lower, start_upper, tol, cap as nat, 64);
            }
        }
    }
    let mut lower = start_lower;
    let mut upper = start_upper;
    let mut known_at_lower: Option<Fixed> = None;
    let mut done: u16 = 0;
    while done < cap
        invariant
            done <= cap,
            start_lower.le(lower),
            lower.le(upper),
            upper.le(start_upper),
            known_at_lower matches Some(v) ==> forall|g: spec_fn(Fixed) -> Fixed| #[trigger]
                computes(f, g) ==> v == g(lower),
            forall|g: spec_fn(Fixed) -> Fixed| #[trigger]
                computes(f, g) ==> bisection_run(g, lower, upper, tol, (cap - done) as nat)
                    == bisection_run(g, start_lower, start_upper, tol, cap as nat),
        decreases cap - done,
    {
        let midpoint = lower.midpoint(upper);
        let at_midpoint = f(midpoint);
        if !at_midpoint.is_defined() {
            return Err(IsentropicFlowError::DomainError);
        }
        if at_midpoint.abs().lt(tol) || upper.minus(lower).half().lt(tol) {
            return Ok(midpoint);
        }
        let at_lower = match known_at_lower {
            Some(v) => v,
            None => f(lower),
        };
        if !at_lower.is_defined() {
            return Err(IsentropicFlowError::DomainError);
        }
        if same_sign(at_midpoint, at_lower) {
            lower = midpoint;
            known_at_lower = Some(at_midpoint);
        } else {
            upper = midpoint;
            known_at_lower = Some(at_lower);
        }
        done = done + 1;
    }
    Err(IsentropicFlowError::NonConvergence)
}

/// Where a Newton-Raphson iteration ended: its result and the iterate from
/// which it took its last step.
pub struct NewtonRun {
    pub outcome: Result<Fixed, IsentropicFlowError>,
    pub last: Fixed,
}

/// Whether a derivative is too small to divide by, or undefined.
pub open spec fn singular_spec(derivative: Fixed) -> bool {
    !derivative.abs().ge(Fixed { bits: SINGULAR_DERIVATIVE_RAW })
}

/// Whether a derivative is too small to divide by, or undefined.
#[verifier::when_used_as_spec(singular_spec)]
pub fn singular(derivative: Fixed) -> (s: bool)
    ensures
        s == singular_spec(derivative),
{
    !derivative.abs().ge(Fixed { bits: SINGULAR_DERIVATIVE_RAW })
}

/// One Newton-Raphson step from `x`.
pub open spec fn newton_step(
    g: spec_fn(Fixed) -> Fixed,
    dg: spec_fn(Fixed) -> Fixed,
    x: Fixed,
) -> Fixed {
    x.minus(g(x).over(dg(x)))
}

/// Newton-Raphson from the iterate `x` with `iterations` iterations left.
///
/// A singular derivative at the iterate ends the search, and so does an
/// undefined next iterate. The next iterate is the root when it differs from
/// the present one by at most the tolerance.
pub open spec fn newton_run(
    g: spec_fn(Fixed) -> Fixed,
    dg: spec_fn(Fixed) -> Fixed,
    x: Fixed,
    tolerance: Fixed,
    iterations: nat,
) -> NewtonRun
    decreases iterations,
{
    let next = newton_step(g, dg, x);
    if iterations == 0 {
        NewtonRun { outcome: Err(IsentropicFlowError::NonConvergence), last: x }
    } else if singular(dg(x)) {
        NewtonRun { outcome: Err(IsentropicFlowError::SingularDerivative), last: x }
    } else if !next.defined() {
        NewtonRun { outcome: Err(IsentropicFlowError::DomainError), last: x }
    } else if next.minus(x).abs().le(tolerance) {
        NewtonRun { outcome: Ok(next), last: x }
    } else {
        newton_run(g, dg, next, tolerance, (iterations - 1) as nat)
    }
}

/// What [`newton_raphson`] returns.
pub open spec fn newton_raphson_spec(
    g: spec_fn(Fixed) -> Fixed,
    dg: spec_fn(Fixed) -> Fixed,
    x_init: Fixed,
    tolerance: Option<Fixed>,
    max_iters: Option<u16>,
) -> Result<Fixed, IsentropicFlowError> {
    if !x_init.defined() || !step_tolerance_or_default(tolerance).defined() {
        Err(IsentropicFlowError::DomainError)
    } else {
        newton_run(
            g,
            dg,
            x_init,
            step_tolerance_or_default(tolerance),
            iterations_or_default(max_iters),
        ).outcome
    }
}

/// A root returned by Newton-Raphson is a number, is one Newton step away from
/// the iterate before it, and differs from that iterate by at most the
/// tolerance; the derivative at that iterate was not singular.
pub proof fn lemma_newton_root_is_converged_step(
    g: spec_fn(Fixed) -> Fixed,
    dg: spec_fn(Fixed) -> Fixed,
    x: Fixed,
    tolerance: Fixed,
    iterations: nat,
)
    ensures
        ({
            let run = newton_run(g, dg, x, tolerance, iterations);
            run.outcome is Ok ==> {
                let root = run.outcome->Ok_0;
                &&& root.defined()
                &&& root == newton_step(g, dg, run.last)
                &&& root.minus(run.last).abs().le(tolerance)
                &&& !singular(dg(run.last))
            }
        }),
    decreases iterations,
{
    let next = newton_step(g, dg, x);
    if iterations == 0 {
    } else if singular(dg(x)) {
    } else if !next.defined() {
    } else if next.minus(x).abs().le(tolerance) {
    } else {
        lemma_newton_root_is_converged_step(g, dg, next, tolerance, (iterations - 1) as nat);
    }
}

/// Finds a root of `f` by Newton-Raphson from `x_init`, with `df` the
/// derivative of `f`.
///
/// The tolerance defaults to [`DEFAULT_STEP_TOLERANCE_RAW`] and the iteration cap to
/// [`DEFAULT_MAX_ITERATIONS`]. Whatever the closures return, a root that is
/// returned is a number. Where `f` and `df` compute functions `g` and `dg`,
/// the result is exactly [`newton_raphson_spec`] of them: the first iterate
/// that moved by no more than the tolerance, or the reason why there is none.
/// For the square root, [`crate::convergence::lemma_newton_finds_square_root`] says on which
/// inputs a root is returned and how close to the square root it is.
#[verifier::loop_isolation(false)]
pub fn newton_raphson<F: Fn(Fixed) -> Fixed, D: Fn(Fixed) -> Fixed>(
    f: &F,
    df: &D,
    x_init: Fixed,
    tolerance: Option<Fixed>,
    max_iters: Option<u16>,
) -> (r: Result<Fixed, IsentropicFlowError>)
    requires
        total(f),
        total(df),
    ensures
        r is Ok ==> (r->Ok_0).defined(),
        forall|g: spec_fn(Fixed) -> Fixed, dg: spec_fn(Fixed) -> Fixed|
            #![trigger computes(f, g), computes(df, dg)]
            computes(f, g) && computes(df, dg) ==> {
                let run = newton_run(
                    g,
                    dg,
                    x_init,
                    step_tolerance_or_default(tolerance),
                    iterations_or_default(max_iters),
                );
                &&& r == newton_raphson_spec(g, dg, x_init, tolerance, max_iters)
                &&& r is Ok ==> r->Ok_0 == newton_step(g, dg, run.last) && (r->Ok_0).minus(
                    run.last,
                ).abs().le(step_tolerance_or_default(tolerance))
            },
{
    let tol = match tolerance {
        Some(t) => t,
        None => default_step_tolerance(),
    };
    let cap: u16 = match max_iters {
        Some(n) => n,
        None => DEFAULT_MAX_ITERATIONS,
    };
    if !x_init.is_defined() || !tol.is_defined() {
        return Err(IsentropicFlowError::DomainError);
    }
    proof {
        assert forall|g: spec_fn(Fixed) -> Fixed, dg: spec_fn(Fixed) -> Fixed|
            #![trigger computes(f, g), computes(df, dg)]
            computes(f, g) && computes(df, dg) implies {
            let run = newton_run(g, dg, x_init, tol, cap as nat);
            run.outcome is Ok ==> run.outcome->Ok_0 == newton_step(g, dg, run.last) && (
            run.outcome->Ok_0).minus(run.last).abs().le(tol)
        } by {
            lemma_newton_root_is_converged_step(g, dg, x_init, tol, cap as nat);
        }
    }
    let mut current = x_init;
    let mut done: u16 = 0;
    while done < cap
        invariant
            done <= cap,
            forall|g: spec_fn(Fixed) -> Fixed, dg: spec_fn(Fixed) -> Fixed|
                #![trigger computes(f, g), computes(df, dg)]
                computes(f, g) && computes(df, dg) ==> newton_run(
                    g,
                    dg,
                    current,
                    tol,
                    (cap - done) as nat,
                ) == newton_run(g, dg, x_init, tol, cap as nat),
        decreases cap - done,
    {
        let derivative = df(current);
        if singular(derivative) {
            return Err(IsentropicFlowError::SingularDerivative);
        }
        let next = current.minus(f(current).over(derivative));
        if !next.is_defined() {
            return Err(IsentropicFlowError::DomainError);
        }
        if next.minus(current).abs().le(tol) {
            return Ok(next);
        }
        current = next;
        done = done + 1;
    }
    Err(IsentropicFlowError::NonConvergence)
}

/// Where a root search starts: between two bounds, or from a first guess.
#[derive(Clone, Copy, Debug)]
pub enum RootStart {
    /// Two bounds with a sign change between them; the search is a bisection.
    Bracket(Fixed, Fixed),
    /// A first guess; the search is Newton-Raphson and needs the derivative.
    Guess(Fixed),
}

/// Finds a root of `function`: by [`bisection`] when the search starts from a
/// bracket, by [`newton_raphson`] when it starts from a guess and the
/// derivative is given. A guess without a derivative is a domain error.
pub fn solve_root<F: Fn(Fixed) -> Fixed, D: Fn(Fixed) -> Fixed>(
    function: &F,
    derivative: Option<&D>,
    start: RootStart,
    tolerance: Option<Fixed>,
    max_iterations: Option<u16>,
) -> (r: Result<Fixed, IsentropicFlowError>)
    requires
        start matches RootStart::Bracket(x1, x2) ==> callable_between(function, x1, x2),
        start is Guess ==> total(function),
        derivative matches Some(d) ==> total(d),
    ensures
        r is Ok ==> (r->Ok_0).defined(),
        start matches RootStart::Bracket(x1, x2) ==> forall|g: spec_fn(Fixed) -> Fixed| #[trigger]
            computes(function, g) ==> r == bisection_spec(g, x1, x2, tolerance, max_iterations),
        start is Guess && derivative is None ==> r == Err::<Fixed, IsentropicFlowError>(
            IsentropicFlowError::DomainError,
        ),
        start is Guess && derivative is Some ==> forall|
            g: spec_fn(Fixed) -> Fixed,
            dg: spec_fn(Fixed) -> Fixed,
        |
            #![trigger computes(function, g), computes(derivative->Some_0, dg)]
            computes(function, g) && computes(derivative->Some_0, dg) ==> r == newton_raphson_spec(
                g,
                dg,
                start->Guess_0,
                tolerance,
                max_iterations,
            ),
{
    match start {
        RootStart::Bracket(x1, x2) => bisection(function, x1, x2, tolerance, max_iterations),
        RootStart::Guess(x_init) => match derivative {
            Some(d) => newton_raphson(function, d, x_init, tolerance, max_iterations),
            None => Err(IsentropicFlowError::DomainError),
        },
    }
}

/// One classical fourth-order Runge-Kutta step of size `h` for the system
/// `y1' = y2`, `y2' = f(r, y1, y2)`: the four stage increments of each
/// component, combined with the weights 1/6, 2/6, 2/6, 1/6.
pub open spec fn rk4_step_spec(
    g: spec_fn(Fixed, Fixed, Fixed) -> Fixed,
    r: Fixed,
    y1: Fixed,
    y2: Fixed,
    h: Fixed,
) -> (Fixed, Fixed) {
    let k1_y1 = h.times(y2);
    let k1_y2 = h.times(g(r, y1, y2));
    let k2_y1 = h.times(y2.plus(k1_y2.half()));
    let k2_y2 = h.times(g(r.plus(h.half()), y1.plus(k1_y1.half()), y2.plus(k1_y2.half())));
    let k3_y1 = h.times(y2.plus(k2_y2.half()));
    let k3_y2 = h.times(g(r.plus(h.half()), y1.plus(k2_y1.half()), y2.plus(k2_y2.half())));
    let k4_y1 = h.times(y2.plus(k3_y2));
    let k4_y2 = h.times(g(r.plus(h), y1.plus(k3_y1), y2.plus(k3_y2)));
    (
        y1.plus(k1_y1.plus(k2_y1.twice()).plus(k3_y1.twice()).plus(k4_y1).div_int(6)),
        y2.plus(k1_y2.plus(k2_y2.twice()).plus(k3_y2.twice()).plus(k4_y2).div_int(6)),
    )
}

/// Advances `(y1, y2)` by one Runge-Kutta step of size `h` from `r`. Where
/// `f` computes the function `g`, the result is exactly [`rk4_step_spec`] of
/// `g`. For the exponential, [`crate::convergence::lemma_rk4_step_exponential`] shows the order of
/// the step.
pub fn runge_kutta_fourth_order_step<F: Fn(Fixed, Fixed, Fixed) -> Fixed>(
    f: &F,
    r: Fixed,
    y1: Fixed,
    y2: Fixed,
    h: Fixed,
) -> (next: (Fixed, Fixed))
    requires
        total_slope(f),
    ensures
        forall|g: spec_fn(Fixed, Fixed, Fixed) -> Fixed| #[trigger]
            computes_slope(f, g) ==> next == rk4_step_spec(g, r, y1, y2, h),
{
    let half_h = h.half();
    let k1_y1 = h.times(y2);
    let k1_y2 = h.times(f(r, y1, y2));
    let k2_y1 = h.times(y2.plus(k1_y2.half()));
    let k2_y2 = h.times(f(r.plus(half_h), y1.plus(k1_y1.half()), y2.plus(k1_y2.half())));
    let k3_y1 = h.times(y2.plus(k2_y2.half()));
    let k3_y2 = h.times(f(r.plus(half_h), y1.plus(k2_y1.half()), y2.plus(k2_y2.half())));
    let k4_y1 = h.times(y2.plus(k3_y2));
    let k4_y2 = h.times(f(r.plus(h), y1.plus(k3_y1), y2.plus(k3_y2)));
    let new_y1 = y1.plus(k1_y1.plus(k2_y1.twice()).plus(k3_y1.twice()).plus(k4_y1).div_int(6));
    let new_y2 = y2.plus(k1_y2.plus(k2_y2.twice()).plus(k3_y2.twice()).plus(k4_y2).div_int(6));
    (new_y1, new_y2)
}

/// The state `(r, y1, y2)` after `steps` Runge-Kutta steps of size `h`.
pub open spec fn rk4_march_spec(
    g: spec_fn(Fixed, Fixed, Fixed) -> Fixed,
    r: Fixed,
    y1: Fixed,
    y2: Fixed,
    h: Fixed,
    steps: nat,
) -> (Fixed, Fixed, Fixed)
    decreases steps,
{
    if steps == 0 {
        (r, y1, y2)
    } else {
        let next = rk4_step_spec(g, r, y1, y2, h);
        rk4_march_spec(g, r.plus(h), next.0, next.1, h, (steps - 1) as nat)
    }
}

/// Integrates `y1' = y2`, `y2' = f(r, y1, y2)` over `steps` steps of size `h`
/// from `(r, y1, y2)` and returns the state reached, independent variable
/// first. Where `f` computes the function `g`, the result is exactly
/// [`rk4_march_spec`] of `g`. For the exponential,
/// [`crate::convergence::lemma_rk4_march_exponential`] bounds the state after
/// any number of steps.
#[verifier::loop_isolation(false)]
pub fn runge_kutta_fourth_order<F: Fn(Fixed, Fixed, Fixed) -> Fixed>(
    f: &F,
    r: Fixed,
    y1: Fixed,
    y2: Fixed,
    h: Fixed,
    steps: u32,
) -> (state: (Fixed, Fixed, Fixed))
    requires
        total_slope(f),
    ensures
        forall|g: spec_fn(Fixed, Fixed, Fixed) -> Fixed| #[trigger]
            computes_slope(f, g) ==> state == rk4_march_spec(g, r, y1, y2, h, steps as nat),
{
    let mut at = r;
    let mut first = y1;
    let mut second = y2;
    let mut done: u32 = 0;
    while done < steps
        invariant
            done <= steps,
            forall|g: spec_fn(Fixed, Fixed, Fixed) -> Fixed| #[trigger]
                computes_slope(f, g) ==> rk4_march_spec(
                    g,
                    at,
                    first,
                    second,
                    h,
                    (steps - done) as nat,
                ) == rk4_march_spec(g, r, y1, y2, h, steps as nat),
        decreases steps - done,
    {
        let next = runge_kutta_fourth_order_step(f, at, first, second, h);
        at = at.plus(h);
        first = next.0;
        second = next.1;
        done = done + 1;
    }
    (at, first, second)
}

} // verus!
