//! Compressible-flow relations in verified fixed-point arithmetic.
//!
//! The crate computes the flow of a calorically perfect gas: isentropic
//! ratios, the jump across normal and oblique shocks, and the conical flow
//! behind the shock of a cone, found by integrating the Taylor-Maccoll
//! equation from the shock to the cone surface.
//!
//! - [`fixed`] and [`elementary`] hold the numbers: fixed-point arithmetic in
//!   which every operation is total, and the elementary functions on it;
//!   [`wide`] holds the sine with guard bits that the trigonometric
//!   functions round from.
//! - [`numerics`] holds bisection, Newton-Raphson and the Runge-Kutta step;
//!   [`convergence`] follows the last two on the square root and the
//!   exponential.
//! - [`isentropic`], [`normalshock`] and [`obliqueshock`] hold the closed-form
//!   relations and their inverses; [`owed`] shows where the relations that
//!   need no more than arithmetic and a square root are owed a value and on
//!   which side of one it lies, [`bounds`] bounds the logarithm, and
//!   [`stagnation`] shows from it where the stagnation-pressure inversion of
//!   a normal shock is owed a Mach number.
//! - [`taylormaccoll`] holds the marching integration and the cone flow built
//!   on it.
//!
//! Every executable function is proved to return exactly what its spec
//! function says, and never panics.

use vstd::prelude::*;

pub mod bounds;
pub mod convergence;
pub mod elementary;
pub mod fixed;
pub mod isentropic;
pub mod normalshock;
pub mod numerics;
pub mod obliqueshock;
pub mod owed;
pub mod stagnation;
pub mod taylormaccoll;
pub mod wide;

verus! {

/// Sum of two unsigned integers.
pub fn add(left: u64, right: u64) -> (sum: u64)
    requires
        left + right <= u64::MAX,
    ensures
        sum == left + right,
{
    left + right
}

} // verus!
