//! Adaptive quadrature of Cauchy principal values.

use vstd::prelude::*;

use crate::IntegrationFailure;
use crate::IntegrationResult;
use crate::scalar::{HALF_BITS, ONE_BITS, Real};
use crate::traits::Integrand;

use super::{
    GSLIntegrationError, QuadratureEngine, QuadratureKind, QuadraturePlan, quadrature_outcome,
    run_quadrature,
};

verus! {

/// Quadrature Adaptive Weighted integration for Cauchy principal values:
/// computes the principal value of a function with a singular weight
/// centred at a point `c`.
#[derive(Debug, Clone)]
pub struct QAWC {
    range_low: Real,
    range_high: Real,
    c: Real,
    nintervals: usize,
}

impl QAWC {
    /// The lower integration bound.
    pub closed spec fn spec_range_low(&self) -> Real {
        self.range_low
    }

    /// The upper integration bound.
    pub closed spec fn spec_range_high(&self) -> Real {
        self.range_high
    }

    /// The location of the singularity.
    pub closed spec fn spec_singularity(&self) -> Real {
        self.c
    }

    /// The subinterval budget of the workspace.
    pub closed spec fn spec_nintervals(&self) -> usize {
        self.nintervals
    }

    /// Creates a new QAWC with enough memory for `nintervals`
    /// subintervals, integrating the range zero to one around a
    /// singularity at one half. See `with_range` and `with_singularity`
    /// to change either.
    pub fn new(nintervals: usize) -> (r: Self)
        ensures
            r.spec_nintervals() == nintervals,
            r.spec_range_low().bits == 0,
            r.spec_range_high().bits == ONE_BITS,
            r.spec_singularity().bits == HALF_BITS,
    {
        QAWC {
            range_low: Real::zero(),
            range_high: Real::one(),
            c: Real::half(),
            nintervals,
        }
    }

    /// Discards the old workspace budget in favour of one with enough
    /// memory for `nintervals` subintervals.
    pub fn with_nintervals(self, nintervals: usize) -> (r: Self)
        ensures
            r.spec_nintervals() == nintervals,
            r.spec_range_low() == self.spec_range_low(),
            r.spec_range_high() == self.spec_range_high(),
            r.spec_singularity() == self.spec_singularity(),
    {
        QAWC { nintervals, ..self }
    }

    /// Uses a different integration range.
    pub fn with_range(self, range_low: Real, range_high: Real) -> (r: Self)
        ensures
            r.spec_range_low() == range_low,
            r.spec_range_high() == range_high,
            r.spec_nintervals() == self.spec_nintervals(),
            r.spec_singularity() == self.spec_singularity(),
    {
        QAWC { range_low, range_high, ..self }
    }

    /// Places the singular point at `c`.
    pub fn with_singularity(self, c: Real) -> (r: Self)
        ensures
            r.spec_singularity() == c,
            r.spec_range_low() == self.spec_range_low(),
            r.spec_range_high() == self.spec_range_high(),
            r.spec_nintervals() == self.spec_nintervals(),
    {
        QAWC { c, ..self }
    }

    /// The plan this adapter hands to the engine for one integration at
    /// the given tolerances: its routine under its own configuration,
    /// singular point included, exactly.
    pub fn plan(&self, epsrel: Real, epsabs: Real) -> (p: QuadraturePlan)
        ensures
            p == (QuadraturePlan {
                kind: QuadratureKind::Qawc {
                    range_low: self.spec_range_low(),
                    range_high: self.spec_range_high(),
                    c: self.spec_singularity(),
                    nintervals: self.spec_nintervals(),
                },
                epsrel,
                epsabs,
            }),
    {
        QuadraturePlan {
            kind: QuadratureKind::Qawc {
                range_low: self.range_low,
                range_high: self.range_high,
                c: self.c,
                nintervals: self.nintervals,
            },
            epsrel,
            epsabs,
        }
    }

    /// Integrates `fun` over the configured range to the requested
    /// tolerances, running the routine through `engine` under exactly
    /// this adapter's plan.
    pub fn integrate<F: Integrand, E: QuadratureEngine<F>>(
        &mut self,
        engine: &mut E,
        fun: F,
        epsrel: Real,
        epsabs: Real,
    ) -> (r: Result<IntegrationResult, IntegrationFailure<GSLIntegrationError>>)
        requires
            epsrel.non_negative(),
            epsabs.non_negative(),
        ensures
            *final(self) == *old(self),
            quadrature_outcome::<F>(r),
    {
        let plan = self.plan(epsrel, epsabs);
        run_quadrature(&plan, engine, fun)
    }
}

} // verus!
