//! Non-adaptive quadrature over a finite range.

use vstd::prelude::*;

use crate::IntegrationFailure;
use crate::IntegrationResult;
use crate::scalar::Real;
use crate::traits::Integrand;

use super::{
    GSLIntegrationError, QuadratureEngine, QuadratureKind, QuadraturePlan, quadrature_outcome,
    run_quadrature,
};

verus! {

/// Quadrature Non-adaptive General-use integrator. Applies Gauss-Kronrod
/// rules of successively higher order until the requested precision is
/// reached; if the 87-point rule does not reach it, the integration
/// fails. It needs no workspace.
#[derive(Debug, Copy, Clone)]
pub struct QNG {
    range_low: Real,
    range_high: Real,
}

impl QNG {
    /// The lower integration bound.
    pub closed spec fn spec_range_low(&self) -> Real {
        self.range_low
    }

    /// The upper integration bound.
    pub closed spec fn spec_range_high(&self) -> Real {
        self.range_high
    }

    /// Creates a new QNG integrating a one-dimensional function from
    /// `range_low` to `range_high`.
    pub fn new(range_low: Real, range_high: Real) -> (r: Self)
        ensures
            r.spec_range_low() == range_low,
            r.spec_range_high() == range_high,
    {
        QNG { range_low, range_high }
    }

    /// Uses a different integration range.
    pub fn with_range(self, range_low: Real, range_high: Real) -> (r: Self)
        ensures
            r.spec_range_low() == range_low,
            r.spec_range_high() == range_high,
    {
        QNG { range_low, range_high }
    }

    /// The plan this adapter hands to the engine for one integration at
    /// the given tolerances: its routine over its own range, exactly.
    pub fn plan(&self, epsrel: Real, epsabs: Real) -> (p: QuadraturePlan)
        ensures
            p == (QuadraturePlan {
                kind: QuadratureKind::Qng {
                    range_low: self.spec_range_low(),
                    range_high: self.spec_range_high(),
                },
                epsrel,
                epsabs,
            }),
    {
        QuadraturePlan {
            kind: QuadratureKind::Qng { range_low: self.range_low, range_high: self.range_high },
            epsrel,
            epsabs,
        }
    }

    /// Integrates `fun` over the configured range to the requested
    /// tolerances, running the routine through `engine` under exactly
    /// this adapter's plan.
    pub fn integrate<F: Integrand, E: QuadratureEngine<F>>(
        &mut self,
        engine: &mut E,
        fun: F,
        epsrel: Real,
        epsabs: Real,
    ) -> (r: Result<IntegrationResult, IntegrationFailure<GSLIntegrationError>>)
        requires
            epsrel.non_negative(),
            epsabs.non_negative(),
        ensures
            *final(self) == *old(self),
            quadrature_outcome::<F>(r),
    {
        let plan = self.plan(epsrel, epsabs);
        run_quadrature(&plan, engine, fun)
    }
}

} // verus!
