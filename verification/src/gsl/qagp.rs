//! Adaptive quadrature with known singular points.

use vstd::prelude::*;

use crate::IntegrationFailure;
use crate::IntegrationResult;
use crate::scalar::Real;
use crate::traits::Integrand;

use super::{
    GSLIntegrationError, QuadratureEngine, QuadratureKind, QuadraturePlan, quadrature_outcome,
    run_quadrature,
};

verus! {

/// A valid bounds-and-singular-points list: at least two points — the
/// first and last are the integration bounds — none of which compares
/// greater than or equal to its successor.
pub open spec fn singular_points_ok(points: Seq<Real>) -> bool {
    &&& points.len() >= 2
    &&& forall|i: int|
        0 <= i < points.len() - 1 ==> !(#[trigger] points[i]).spec_ge(points[i + 1])
}

/// Accepts a bounds-and-singular-points list exactly when it is valid:
/// it has at least two points (otherwise the integration bounds would be
/// undefined) and the points ascend.
fn verify_singular_points(points: Vec<Real>) -> (r: Option<Vec<Real>>)
    ensures
        r is Some <==> singular_points_ok(points@),
        r matches Some(v) ==> v@ == points@,
{
    if points.len() < 2 {
        return None;
    }
    let n = points.len();
    for i in 0..n - 1
        invariant
            n == points@.len(),
            n >= 2,
            forall|j: int| 0 <= j < i ==> !(#[trigger] points@[j]).spec_ge(points@[j + 1]),
    {
        if points[i].ge(&points[i + 1]) {
            return None;
        }
    }
    Some(points)
}

/// Quadrature Adaptive General integration with known singular Points:
/// the adaptive algorithm of the singularity-aware routine, helped by the
/// known locations of the singularities. The list's first and last
/// entries are the integration bounds; every entry in between is a known
/// singular point.
pub struct QAGP {
    singularities: Vec<Real>,
    nintervals: usize,
}

impl QAGP {
    /// The adapter always holds a valid bounds-and-singular-points list.
    #[verifier::type_invariant]
    spec fn wf(self) -> bool {
        singular_points_ok(self.singularities@)
    }

    /// The bounds-and-singular-points list.
    pub closed spec fn spec_singularities(&self) -> Seq<Real> {
        self.singularities@
    }

    /// The subinterval budget of the workspace.
    pub closed spec fn spec_nintervals(&self) -> usize {
        self.nintervals
    }

    /// Creates a new QAGP with enough memory for `nintervals`
    /// subintervals, over the bounds and singular points in `points`.
    /// Yields nothing if there are fewer than two points, or if the
    /// points are not in ascending order.
    pub fn new(nintervals: usize, points: Vec<Real>) -> (r: Option<Self>)
        ensures
            r is Some <==> singular_points_ok(points@),
            r matches Some(q) ==> q.spec_singularities() == points@ && q.spec_nintervals()
                == nintervals,
    {
        match verify_singular_points(points) {
            Some(v) => Some(QAGP { singularities: v, nintervals }),
            None => None,
        }
    }

    /// Discards the old workspace budget in favour of one with enough
    /// memory for `nintervals` subintervals.
    pub fn with_nintervals(self, nintervals: usize) -> (r: Self)
        ensures
            r.spec_nintervals() == nintervals,
            r.spec_singularities() == self.spec_singularities(),
    {
        proof {
            use_type_invariant(&self);
        }
        QAGP { nintervals, ..self }
    }

    /// Provides a new bounds-and-singular-points list. As with `new`,
    /// yields nothing if there are fewer than two points, or if the
    /// points are not in ascending order.
    pub fn with_points(self, points: Vec<Real>) -> (r: Option<Self>)
        ensures
            r is Some <==> singular_points_ok(points@),
            r matches Some(q) ==> q.spec_singularities() == points@ && q.spec_nintervals()
                == self.spec_nintervals(),
    {
        proof {
            use_type_invariant(&self);
        }
        match verify_singular_points(points) {
            Some(v) => Some(QAGP { singularities: v, ..self }),
            None => None,
        }
    }

    /// The bounds and singular points in use.
    pub fn singularities(&self) -> (r: &[Real])
        ensures
            r@ == self.spec_singularities(),
    {
        self.singularities.as_slice()
    }

    /// The plan this adapter hands to the engine for one integration at
    /// the given tolerances: its routine over exactly this adapter's
    /// bounds-and-singular-points list, whose first and last entries are
    /// the integration bounds.
    pub fn plan(&self, epsrel: Real, epsabs: Real) -> (p: QuadraturePlan)
        ensures
            p.epsrel == epsrel,
            p.epsabs == epsabs,
            p.kind matches QuadratureKind::Qagp { points, nintervals } && points@
                == self.spec_singularities() && nintervals == self.spec_nintervals(),
    {
        let n = self.singularities.len();
        let mut points: Vec<Real> = Vec::new();
        for i in 0..n
            invariant
                n == self.singularities@.len(),
                points@ =~= self.singularities@.take(i as int),
        {
            points.push(self.singularities[i]);
        }
        proof {
            assert(points@ =~= self.singularities@);
        }
        QuadraturePlan {
            kind: QuadratureKind::Qagp { points, nintervals: self.nintervals },
            epsrel,
            epsabs,
        }
    }

    /// Integrates `fun` between the list's outer bounds to the requested
    /// tolerances, running the routine through `engine` under exactly
    /// this adapter's plan.
    pub fn integrate<F: Integrand, E: QuadratureEngine<F>>(
        &mut self,
        engine: &mut E,
        fun: F,
        epsrel: Real,
        epsabs: Real,
    ) -> (r: Result<IntegrationResult, IntegrationFailure<GSLIntegrationError>>)
        requires
            epsrel.non_negative(),
            epsabs.non_negative(),
        ensures
            *final(self) == *old(self),
            quadrature_outcome::<F>(r),
    {
        let plan = self.plan(epsrel, epsabs);
        run_quadrature(&plan, engine, fun)
    }
}

} // verus!
