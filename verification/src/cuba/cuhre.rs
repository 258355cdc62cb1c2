//! Deterministic cubature with polynomial rules.

use vstd::prelude::*;

use crate::IntegrationFailure;
use crate::scalar::Real;
use crate::traits::{Integrand, IntegrandInput};

use super::{CubaEngine, CubaError, CubaIntegrationResults, CubaRoutine, cuba_outcome, run_cuba};

verus! {

/// Deterministic cubature: applies a fixed polynomial rule per subregion
/// and subdivides adaptively. The rule is chosen by its polynomial
/// degree — the key — either explicitly or from the dimension count.
#[derive(Copy, Clone, Debug)]
pub struct Cuhre {
    /// The fewest integrand evaluations to use.
    pub mineval: usize,
    /// The most integrand evaluations to use.
    pub maxeval: usize,
    key: Option<u16>,
}

impl Cuhre {
    /// The rule degrees the routine supports.
    pub open spec fn valid_key(k: u16) -> bool {
        k == 7 || k == 9 || k == 11 || k == 13
    }

    /// The explicitly chosen rule degree, if any.
    pub closed spec fn spec_key(&self) -> Option<u16> {
        self.key
    }

    /// The fewest integrand evaluations to use.
    pub closed spec fn spec_mineval(&self) -> usize {
        self.mineval
    }

    /// The most integrand evaluations to use.
    pub closed spec fn spec_maxeval(&self) -> usize {
        self.maxeval
    }

    /// A Cuhre holds either no rule degree or a supported one; every
    /// constructor and builder maintains this.
    pub closed spec fn wf(&self) -> bool {
        match self.key {
            Some(k) => Self::valid_key(k),
            None => true,
        }
    }

    /// The rule degree used for a given dimension count: the explicitly
    /// chosen one if any, else degree thirteen in one and two dimensions,
    /// eleven in three, nine above.
    pub open spec fn spec_chosen_key(key: Option<u16>, ndim: usize) -> u16 {
        match key {
            Some(k) => k,
            None => if ndim == 1 || ndim == 2 {
                13
            } else if ndim == 3 {
                11
            } else {
                9
            },
        }
    }

    /// Creates a new Cuhre evaluating the integrand at most `maxeval`
    /// times, choosing its rule degree by the dimension count.
    pub fn new(maxeval: usize) -> (r: Self)
        ensures
            r.wf(),
            r.spec_mineval() == 1,
            r.spec_maxeval() == maxeval,
            r.spec_key() is None,
    {
        Cuhre { mineval: 1, maxeval, key: None }
    }

    /// Uses a different lower bound on the evaluation count.
    pub fn with_mineval(self, mineval: usize) -> (r: Self)
        ensures
            r.wf() == self.wf(),
            r.spec_mineval() == mineval,
            r.spec_maxeval() == self.spec_maxeval(),
            r.spec_key() == self.spec_key(),
    {
        Cuhre { mineval, ..self }
    }

    /// Uses a different upper bound on the evaluation count.
    pub fn with_maxeval(self, maxeval: usize) -> (r: Self)
        ensures
            r.wf() == self.wf(),
            r.spec_maxeval() == maxeval,
            r.spec_mineval() == self.spec_mineval(),
            r.spec_key() == self.spec_key(),
    {
        Cuhre { maxeval, ..self }
    }

    /// Chooses the cubature rule. A degree must be one of the supported
    /// ones — seven, nine, eleven or thirteen — and nothing is yielded
    /// for any other; no degree returns to choosing by dimension count.
    pub fn with_key(self, key: Option<u16>) -> (r: Option<Self>)
        ensures
            r is Some <==> (key matches Some(k) ==> Self::valid_key(k)),
            r matches Some(c) ==> c.wf() && c.spec_key() == key && c.spec_mineval() == self.spec_mineval()
                && c.spec_maxeval() == self.spec_maxeval(),
    {
        let ok = match key {
            Some(k) => k == 7 || k == 9 || k == 11 || k == 13,
            None => true,
        };
        if ok {
            Some(Cuhre { key, ..self })
        } else {
            None
        }
    }

    /// The routine configuration this adapter hands to the engine for an
    /// integrand of `ndim` input dimensions: its own evaluation bounds and
    /// the chosen rule degree, exactly — and the chosen degree is always a
    /// supported one.
    pub fn routine(&self, ndim: usize) -> (r: CubaRoutine)
        requires
            self.wf(),
        ensures
            r == (CubaRoutine::Cuhre {
                mineval: self.spec_mineval(),
                maxeval: self.spec_maxeval(),
                key: Self::spec_chosen_key(self.spec_key(), ndim),
            }),
            Self::valid_key(Self::spec_chosen_key(self.spec_key(), ndim)),
    {
        let key: u16 = match self.key {
            Some(k) => k,
            None => if ndim == 1 || ndim == 2 {
                13
            } else if ndim == 3 {
                11
            } else {
                9
            },
        };
        CubaRoutine::Cuhre { mineval: self.mineval, maxeval: self.maxeval, key }
    }

    /// Integrates `fun` over the unit hypercube to the requested
    /// tolerances, running the routine through `engine` under exactly
    /// this adapter's configuration and chosen rule degree.
    pub fn integrate<F: Integrand, E: CubaEngine<F>>(
        &mut self,
        engine: &mut E,
        fun: F,
        epsrel: Real,
        epsabs: Real,
    ) -> (r: Result<CubaIntegrationResults, IntegrationFailure<CubaError>>)
        requires
            old(self).wf(),
            epsrel.non_negative(),
            epsabs.non_negative(),
        ensures
            *final(self) == *old(self),
            cuba_outcome::<F>("cuhre", true, r),
    {
        let ndim = <F::Input as IntegrandInput>::input_size();
        let routine = self.routine(ndim);
        run_cuba(routine, engine, fun, epsrel, epsabs)
    }
}

} // verus!
