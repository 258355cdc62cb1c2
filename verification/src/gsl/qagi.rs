//! Adaptive quadrature over infinite and semi-infinite intervals.

use vstd::prelude::*;

use crate::IntegrationFailure;
use crate::IntegrationResult;
use crate::scalar::Real;
use crate::traits::Integrand;

use super::{
    GSLIntegrationError, QuadratureEngine, QuadratureKind, QuadraturePlan, quadrature_outcome,
    run_quadrature,
};

verus! {

/// Quadrature Adaptive General integration for Infinite intervals:
/// integrates over the whole real line by transforming the integral onto
/// a finite interval and applying the singularity-aware adaptive
/// algorithm to the transform.
#[derive(Debug, Clone)]
pub struct QAGI {
    nintervals: usize,
}

/// The same algorithm over the semi-infinite interval from a lower bound
/// to positive infinity.
#[derive(Debug, Clone)]
pub struct QAGIU {
    nintervals: usize,
    lower_bound: Real,
}

/// The same algorithm over the semi-infinite interval from negative
/// infinity to an upper bound.
#[derive(Debug, Clone)]
pub struct QAGIL {
    nintervals: usize,
    upper_bound: Real,
}

impl QAGI {
    /// The subinterval budget of the workspace.
    pub closed spec fn spec_nintervals(&self) -> usize {
        self.nintervals
    }

    /// Creates a new QAGI with enough memory for `nintervals`
    /// subintervals.
    pub fn new(nintervals: usize) -> (r: Self)
        ensures
            r.spec_nintervals() == nintervals,
    {
        QAGI { nintervals }
    }

    /// Discards the old workspace budget in favour of one with enough
    /// memory for `nintervals` subintervals.
    pub fn with_nintervals(self, nintervals: usize) -> (r: Self)
        ensures
            r.spec_nintervals() == nintervals,
    {
        QAGI { nintervals }
    }

    /// The plan this adapter hands to the engine for one integration at
    /// the given tolerances: its routine under its own workspace budget,
    /// exactly.
    pub fn plan(&self, epsrel: Real, epsabs: Real) -> (p: QuadraturePlan)
        ensures
            p == (QuadraturePlan {
                kind: QuadratureKind::Qagi { nintervals: self.spec_nintervals() },
                epsrel,
                epsabs,
            }),
    {
        QuadraturePlan {
            kind: QuadratureKind::Qagi { nintervals: self.nintervals },
            epsrel,
            epsabs,
        }
    }

    /// Integrates `fun` over the whole real line to the requested
    /// tolerances, running the routine through `engine` under exactly
    /// this adapter's plan.
    pub fn integrate<F: Integrand, E: QuadratureEngine<F>>(
        &mut self,
        engine: &mut E,
        fun: F,
        epsrel: Real,
        epsabs: Real,
    ) -> (r: Result<IntegrationResult, IntegrationFailure<GSLIntegrationError>>)
        requires
            epsrel.non_negative(),
            epsabs.non_negative(),
        ensures
            *final(self) == *old(self),
            quadrature_outcome::<F>(r),
    {
        let plan = self.plan(epsrel, epsabs);
        run_quadrature(&plan, engine, fun)
    }
}

impl QAGIU {
    /// The subinterval budget of the workspace.
    pub closed spec fn spec_nintervals(&self) -> usize {
        self.nintervals
    }

    /// The lower integration bound.
    pub closed spec fn spec_lower_bound(&self) -> Real {
        self.lower_bound
    }

    /// Creates a new QAGIU with enough memory for `nintervals`
    /// subintervals, integrating from `lower_bound` to positive infinity.
    pub fn new(nintervals: usize, lower_bound: Real) -> (r: Self)
        ensures
            r.spec_nintervals() == nintervals,
            r.spec_lower_bound() == lower_bound,
    {
        QAGIU { nintervals, lower_bound }
    }

    /// Discards the old workspace budget in favour of one with enough
    /// memory for `nintervals` subintervals.
    pub fn with_nintervals(self, nintervals: usize) -> (r: Self)
        ensures
            r.spec_nintervals() == nintervals,
            r.spec_lower_bound() == self.spec_lower_bound(),
    {
        QAGIU { nintervals, ..self }
    }

    /// The plan this adapter hands to the engine for one integration at
    /// the given tolerances: its routine from its own lower bound, under
    /// its own workspace budget, exactly.
    pub fn plan(&self, epsrel: Real, epsabs: Real) -> (p: QuadraturePlan)
        ensures
            p == (QuadraturePlan {
                kind: QuadratureKind::Qagiu {
                    lower_bound: self.spec_lower_bound(),
                    nintervals: self.spec_nintervals(),
                },
                epsrel,
                epsabs,
            }),
    {
        QuadraturePlan {
            kind: QuadratureKind::Qagiu {
                lower_bound: self.lower_bound,
                nintervals: self.nintervals,
            },
            epsrel,
            epsabs,
        }
    }

    /// Integrates `fun` from the configured lower bound to positive
    /// infinity, running the routine through `engine` under exactly this
    /// adapter's plan.
    pub fn integrate<F: Integrand, E: QuadratureEngine<F>>(
        &mut self,
        engine: &mut E,
        fun: F,
        epsrel: Real,
        epsabs: Real,
    ) -> (r: Result<IntegrationResult, IntegrationFailure<GSLIntegrationError>>)
        requires
            epsrel.non_negative(),
            epsabs.non_negative(),
        ensures
            *final(self) == *old(self),
            quadrature_outcome::<F>(r),
    {
        let plan = self.plan(epsrel, epsabs);
        run_quadrature(&plan, engine, fun)
    }
}

impl QAGIL {
    /// The subinterval budget of the workspace.
    pub closed spec fn spec_nintervals(&self) -> usize {
        self.nintervals
    }

    /// The upper integration bound.
    pub closed spec fn spec_upper_bound(&self) -> Real {
        self.upper_bound
    }

    /// Creates a new QAGIL with enough memory for `nintervals`
    /// subintervals, integrating from negative infinity to `upper_bound`.
    pub fn new(nintervals: usize, upper_bound: Real) -> (r: Self)
        ensures
            r.spec_nintervals() == nintervals,
            r.spec_upper_bound() == upper_bound,
    {
        QAGIL { nintervals, upper_bound }
    }

    /// Discards the old workspace budget in favour of one with enough
    /// memory for `nintervals` subintervals.
    pub fn with_nintervals(self, nintervals: usize) -> (r: Self)
        ensures
            r.spec_nintervals() == nintervals,
            r.spec_upper_bound() == self.spec_upper_bound(),
    {
        QAGIL { nintervals, ..self }
    }

    /// The plan this adapter hands to the engine for one integration at
    /// the given tolerances: its routine up to its own upper bound, under
    /// its own workspace budget, exactly.
    pub fn plan(&self, epsrel: Real, epsabs: Real) -> (p: QuadraturePlan)
        ensures
            p == (QuadraturePlan {
                kind: QuadratureKind::Qagil {
                    upper_bound: self.spec_upper_bound(),
                    nintervals: self.spec_nintervals(),
                },
                epsrel,
                epsabs,
            }),
    {
        QuadraturePlan {
            kind: QuadratureKind::Qagil {
                upper_bound: self.upper_bound,
                nintervals: self.nintervals,
            },
            epsrel,
            epsabs,
        }
    }

    /// Integrates `fun` from negative infinity to the configured upper
    /// bound, running the routine through `engine` under exactly this
    /// adapter's plan.
    pub fn integrate<F: Integrand, E: QuadratureEngine<F>>(
        &mut self,
        engine: &mut E,
        fun: F,
        epsrel: Real,
        epsabs: Real,
    ) -> (r: Result<IntegrationResult, IntegrationFailure<GSLIntegrationError>>)
        requires
            epsrel.non_negative(),
            epsabs.non_negative(),
        ensures
            *final(self) == *old(self),
            quadrature_outcome::<F>(r),
    {
        let plan = self.plan(epsrel, epsabs);
        run_quadrature(&plan, engine, fun)
    }
}

} // verus!
