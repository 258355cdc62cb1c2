//! Safe, typed access to external numerical-integration routines.
//!
//! The library is organised around three verified layers:
//!
//! * a marshaling layer ([`traits`]) that converts between fixed-arity
//!   numeric tuples (or variable-length vectors) and the flat buffers a
//!   foreign ABI exchanges, checking the arity on every conversion;
//! * a callback trampoline ([`ffi::LandingPad`]) that wraps a user
//!   integrand, captures the first failure it raises, and guarantees the
//!   integrand is never invoked again after that failure;
//! * a result and error model per backend family ([`gsl`], [`cuba`])
//!   that maps every status code a routine can report to exactly one
//!   typed outcome.
//!
//! The foreign routines themselves are reached through engine traits
//! ([`gsl::QuadratureEngine`], [`cuba::CubaEngine`]); a host crate
//! implements them over the actual libraries, and everything the library
//! promises holds for every value such an engine can return.
//!
//! There is no single integrator trait spanning both families — one
//! method cannot be generic over either family's engine — so the uniform
//! contract lives in the shared drivers ([`gsl::run_quadrature`],
//! [`cuba::run_cuba`]) and their outcome predicates, and each adapter
//! exposes `integrate` against its own family's engine. What an adapter
//! hands such an engine is itself contracted: each has a plan or routine
//! builder whose `ensures` ties every configuration field to the
//! adapter's own state, and `integrate` hands the engine exactly that.

use vstd::prelude::*;

pub mod cuba;
pub mod ffi;
pub mod gsl;
pub mod scalar;
pub mod traits;

pub use scalar::Real;
pub use traits::{IntegrandInput, IntegrandOutput, IntegrationResults};

verus! {

/// A pair of double-precision values.
pub type Real2 = (Real, Real);

/// A triple of double-precision values.
pub type Real3 = (Real, Real, Real);

/// Four double-precision values.
pub type Real4 = (Real, Real, Real, Real);

/// Five double-precision values.
pub type Real5 = (Real, Real, Real, Real, Real);

/// Six double-precision values.
pub type Real6 = (Real, Real, Real, Real, Real, Real);

/// Seven double-precision values.
pub type Real7 = (Real, Real, Real, Real, Real, Real, Real);

/// Eight double-precision values.
pub type Real8 = (Real, Real, Real, Real, Real, Real, Real, Real);

/// One integration result entry: the computed value together with the
/// backend's estimate of its absolute error.
#[derive(Copy, Clone, Debug, PartialEq, Eq, Structural)]
pub struct IntegrationResult {
    pub value: Real,
    pub error: Real,
}

/// Why an `integrate` call produced no success record: either the
/// backend family reported a typed error, or the integrand itself raised
/// a failure. The landing pad captures the latter during the foreign
/// call and the adapter re-surfaces it here, payload unchanged, once the
/// foreign frames have unwound — exactly as if the integrand had raised
/// it directly.
#[derive(Clone, Debug, PartialEq, Eq)]
pub enum IntegrationFailure<E> {
    /// A typed error of the backend family: a configuration rejected
    /// before any foreign call, or a status the routine reported.
    Error(E),
    /// The failure the integrand raised, re-surfaced verbatim.
    Integrand(ffi::CapturedFailure),
}

impl traits::IntegrationResults for IntegrationResult {
    open spec fn spec_results(self) -> Seq<IntegrationResult> {
        seq![self]
    }

    fn results(self) -> (r: Vec<IntegrationResult>) {
        let mut r: Vec<IntegrationResult> = Vec::new();
        r.push(self);
        proof {
            assert(r@ =~= seq![self]);
        }
        r
    }
}

} // verus!
