//! Adaptive quadrature with extrapolation around singularities.

use vstd::prelude::*;

use crate::IntegrationFailure;
use crate::IntegrationResult;
use crate::scalar::{ONE_BITS, Real};
use crate::traits::Integrand;

use super::{
    GSLIntegrationError, QuadratureEngine, QuadratureKind, QuadraturePlan, quadrature_outcome,
    run_quadrature,
};

verus! {

/// Quadrature Adaptive General integration with Singularities.
/// Concentrates subintervals around integrable singularities and speeds
/// convergence with an extrapolation procedure.
#[derive(Debug, Clone)]
pub struct QAGS {
    range_low: Real,
    range_high: Real,
    nintervals: usize,
}

impl QAGS {
    /// The lower integration bound.
    pub closed spec fn spec_range_low(&self) -> Real {
        self.range_low
    }

    /// The upper integration bound.
    pub closed spec fn spec_range_high(&self) -> Real {
        self.range_high
    }

    /// The subinterval budget of the workspace.
    pub closed spec fn spec_nintervals(&self) -> usize {
        self.nintervals
    }

    /// Creates a new QAGS with enough memory for `nintervals`
    /// subintervals, integrating the range zero to one. See `with_range`
    /// to change the bounds.
    pub fn new(nintervals: usize) -> (r: Self)
        ensures
            r.spec_nintervals() == nintervals,
            r.spec_range_low().bits == 0,
            r.spec_range_high().bits == ONE_BITS,
    {
        QAGS { range_low: Real::zero(), range_high: Real::one(), nintervals }
    }

    /// Discards the old workspace budget in favour of one with enough
    /// memory for `nintervals` subintervals.
    pub fn with_nintervals(self, nintervals: usize) -> (r: Self)
        ensures
            r.spec_nintervals() == nintervals,
            r.spec_range_low() == self.spec_range_low(),
            r.spec_range_high() == self.spec_range_high(),
    {
        QAGS { nintervals, ..self }
    }

    /// Uses a different integration range.
    pub fn with_range(self, range_low: Real, range_high: Real) -> (r: Self)
        ensures
            r.spec_range_low() == range_low,
            r.spec_range_high() == range_high,
            r.spec_nintervals() == self.spec_nintervals(),
    {
        QAGS { range_low, range_high, ..self }
    }

    /// The plan this adapter hands to the engine for one integration at
    /// the given tolerances: its routine under its own configuration,
    /// exactly.
    pub fn plan(&self, epsrel: Real, epsabs: Real) -> (p: QuadraturePlan)
        ensures
            p == (QuadraturePlan {
                kind: QuadratureKind::Qags {
                    range_low: self.spec_range_low(),
                    range_high: self.spec_range_high(),
                    nintervals: self.spec_nintervals(),
                },
                epsrel,
                epsabs,
            }),
    {
        QuadraturePlan {
            kind: QuadratureKind::Qags {
                range_low: self.range_low,
                range_high: self.range_high,
                nintervals: self.nintervals,
            },
            epsrel,
            epsabs,
        }
    }

    /// Integrates `fun` over the configured range to the requested
    /// tolerances, running the routine through `engine` under exactly
    /// this adapter's plan.
    pub fn integrate<F: Integrand, E: QuadratureEngine<F>>(
        &mut self,
        engine: &mut E,
        fun: F,
        epsrel: Real,
        epsabs: Real,
    ) -> (r: Result<IntegrationResult, IntegrationFailure<GSLIntegrationError>>)
        requires
            epsrel.non_negative(),
            epsabs.non_negative(),
        ensures
            *final(self) == *old(self),
            quadrature_outcome::<F>(r),
    {
        let plan = self.plan(epsrel, epsabs);
        run_quadrature(&plan, engine, fun)
    }
}

} // verus!
