//! General adaptive quadrature with a selectable rule.

use vstd::prelude::*;

use crate::IntegrationFailure;
use crate::IntegrationResult;
use crate::scalar::{ONE_BITS, Real};
use crate::traits::Integrand;

use super::{
    GSLIntegrationError, QuadratureEngine, QuadratureKind, QuadraturePlan, quadrature_outcome,
    run_quadrature,
};

verus! {

/// Quadrature rule to apply for QAG integration. Rules are supported for
/// 15, 21, 31, 41, 51, 61 points.
#[derive(Debug, Hash, Copy, Clone, PartialEq, Eq, Structural)]
pub enum QAGRule {
    Gauss15,
    Gauss21,
    Gauss31,
    Gauss41,
    Gauss51,
    Gauss61,
}

impl QAGRule {
    /// The rule's key in the foreign library's vocabulary: the six rules
    /// number one to six in order of their point count.
    pub open spec fn spec_raw(self) -> i32 {
        match self {
            QAGRule::Gauss15 => 1,
            QAGRule::Gauss21 => 2,
            QAGRule::Gauss31 => 3,
            QAGRule::Gauss41 => 4,
            QAGRule::Gauss51 => 5,
            QAGRule::Gauss61 => 6,
        }
    }

    /// Yields the rule's key.
    pub fn raw(&self) -> (n: i32)
        ensures
            n == self.spec_raw(),
    {
        match self {
            QAGRule::Gauss15 => 1,
            QAGRule::Gauss21 => 2,
            QAGRule::Gauss31 => 3,
            QAGRule::Gauss41 => 4,
            QAGRule::Gauss51 => 5,
            QAGRule::Gauss61 => 6,
        }
    }
}

/// Quadrature Adaptive General integration. Iteratively applies a
/// quadrature rule to sub-regions of a function until it converges to the
/// requested uncertainty; works well for most well-behaved functions.
#[derive(Debug, Clone)]
pub struct QAG {
    range_low: Real,
    range_high: Real,
    nintervals: usize,
    rule: QAGRule,
}

impl QAG {
    /// The lower integration bound.
    pub closed spec fn spec_range_low(&self) -> Real {
        self.range_low
    }

    /// The upper integration bound.
    pub closed spec fn spec_range_high(&self) -> Real {
        self.range_high
    }

    /// The subinterval budget of the workspace.
    pub closed spec fn spec_nintervals(&self) -> usize {
        self.nintervals
    }

    /// The quadrature rule in use.
    pub closed spec fn spec_rule(&self) -> QAGRule {
        self.rule
    }

    /// Creates a new QAG with enough memory for `nintervals`
    /// subintervals, integrating the range zero to one with the 61-point
    /// (highest-order) rule. See `with_range` and `with_rule` to change
    /// either.
    pub fn new(nintervals: usize) -> (r: Self)
        ensures
            r.spec_nintervals() == nintervals,
            r.spec_range_low().bits == 0,
            r.spec_range_high().bits == ONE_BITS,
            r.spec_rule() == QAGRule::Gauss61,
    {
        QAG {
            range_low: Real::zero(),
            range_high: Real::one(),
            rule: QAGRule::Gauss61,
            nintervals,
        }
    }

    /// Discards the old workspace budget in favour of one with enough
    /// memory for `nintervals` subintervals.
    pub fn with_nintervals(self, nintervals: usize) -> (r: Self)
        ensures
            r.spec_nintervals() == nintervals,
            r.spec_range_low() == self.spec_range_low(),
            r.spec_range_high() == self.spec_range_high(),
            r.spec_rule() == self.spec_rule(),
    {
        QAG { nintervals, ..self }
    }

    /// Uses a different integration range.
    pub fn with_range(self, range_low: Real, range_high: Real) -> (r: Self)
        ensures
            r.spec_range_low() == range_low,
            r.spec_range_high() == range_high,
            r.spec_nintervals() == self.spec_nintervals(),
            r.spec_rule() == self.spec_rule(),
    {
        QAG { range_low, range_high, ..self }
    }

    /// Uses a specific quadrature rule.
    pub fn with_rule(self, rule: QAGRule) -> (r: Self)
        ensures
            r.spec_rule() == rule,
            r.spec_range_low() == self.spec_range_low(),
            r.spec_range_high() == self.spec_range_high(),
            r.spec_nintervals() == self.spec_nintervals(),
    {
        QAG { rule, ..self }
    }

    /// The plan this adapter hands to the engine for one integration at
    /// the given tolerances: its routine under its own configuration,
    /// exactly.
    pub fn plan(&self, epsrel: Real, epsabs: Real) -> (p: QuadraturePlan)
        ensures
            p == (QuadraturePlan {
                kind: QuadratureKind::Qag {
                    range_low: self.spec_range_low(),
                    range_high: self.spec_range_high(),
                    rule: self.spec_rule(),
                    nintervals: self.spec_nintervals(),
                },
                epsrel,
                epsabs,
            }),
    {
        QuadraturePlan {
            kind: QuadratureKind::Qag {
                range_low: self.range_low,
                range_high: self.range_high,
                rule: self.rule,
                nintervals: self.nintervals,
            },
            epsrel,
            epsabs,
        }
    }

    /// Integrates `fun` over the configured range to the requested
    /// tolerances, running the routine through `engine` under exactly
    /// this adapter's plan.
    pub fn integrate<F: Integrand, E: QuadratureEngine<F>>(
        &mut self,
        engine: &mut E,
        fun: F,
        epsrel: Real,
        epsabs: Real,
    ) -> (r: Result<IntegrationResult, IntegrationFailure<GSLIntegrationError>>)
        requires
            epsrel.non_negative(),
            epsabs.non_negative(),
        ensures
            *final(self) == *old(self),
            quadrature_outcome::<F>(r),
    {
        let plan = self.plan(epsrel, epsabs);
        run_quadrature(&plan, engine, fun)
    }
}

} // verus!
