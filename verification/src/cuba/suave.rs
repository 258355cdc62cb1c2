//! Subregion-adaptive importance sampling.

use vstd::prelude::*;

use crate::IntegrationFailure;
use crate::scalar::Real;
use crate::traits::Integrand;

use super::{CubaEngine, CubaError, CubaIntegrationResults, CubaRoutine, cuba_outcome, run_cuba};

verus! {

/// Bit pattern of the double-precision value twenty-five, the default
/// flatness.
pub const SUAVE_FLATNESS_BITS: u64 = 0x4039_0000_0000_0000;

/// Subregion-adaptive importance sampling: combines importance sampling
/// with adaptive subdivision, rating each subregion by the flatness of
/// the integrand over it.
#[derive(Copy, Clone, Debug)]
pub struct Suave {
    mineval: usize,
    maxeval: usize,
    seed: usize,
    nnew: usize,
    nmin: usize,
    flatness: Real,
    flags: i32,
}

impl Suave {
    /// The fewest integrand evaluations to use.
    pub closed spec fn spec_mineval(&self) -> usize {
        self.mineval
    }

    /// The most integrand evaluations to use.
    pub closed spec fn spec_maxeval(&self) -> usize {
        self.maxeval
    }

    /// The random-number seed.
    pub closed spec fn spec_seed(&self) -> usize {
        self.seed
    }

    /// The number of new samples per subdivision.
    pub closed spec fn spec_nnew(&self) -> usize {
        self.nnew
    }

    /// The fewest samples a subregion may keep.
    pub closed spec fn spec_nmin(&self) -> usize {
        self.nmin
    }

    /// The flatness parameter steering the subregion rating.
    pub closed spec fn spec_flatness(&self) -> Real {
        self.flatness
    }

    /// The routine's flag word.
    pub closed spec fn spec_flags(&self) -> i32 {
        self.flags
    }

    /// Creates a new Suave with the default configuration.
    pub fn new() -> (r: Self)
        ensures
            r.spec_mineval() == 1,
            r.spec_maxeval() == usize::MAX / 2,
            r.spec_seed() == 0,
            r.spec_nnew() == 1000,
            r.spec_nmin() == 5,
            r.spec_flatness().bits == SUAVE_FLATNESS_BITS,
            r.spec_flags() == 0,
    {
        Suave {
            mineval: 1,
            maxeval: usize::MAX / 2,
            seed: 0,
            nnew: 1000,
            nmin: 5,
            flatness: Real::from_bits(SUAVE_FLATNESS_BITS),
            flags: 0,
        }
    }

    /// Uses a different lower bound on the evaluation count.
    pub fn with_mineval(self, mineval: usize) -> (r: Self)
        ensures
            r.spec_mineval() == mineval,
            r.spec_maxeval() == self.spec_maxeval(),
            r.spec_seed() == self.spec_seed(),
            r.spec_nnew() == self.spec_nnew(),
            r.spec_nmin() == self.spec_nmin(),
            r.spec_flatness() == self.spec_flatness(),
            r.spec_flags() == self.spec_flags(),
    {
        Suave { mineval, ..self }
    }

    /// Uses a different upper bound on the evaluation count.
    pub fn with_maxeval(self, maxeval: usize) -> (r: Self)
        ensures
            r.spec_maxeval() == maxeval,
            r.spec_mineval() == self.spec_mineval(),
            r.spec_seed() == self.spec_seed(),
            r.spec_nnew() == self.spec_nnew(),
            r.spec_nmin() == self.spec_nmin(),
            r.spec_flatness() == self.spec_flatness(),
            r.spec_flags() == self.spec_flags(),
    {
        Suave { maxeval, ..self }
    }

    /// Uses a different random-number seed.
    pub fn with_seed(self, seed: usize) -> (r: Self)
        ensures
            r.spec_seed() == seed,
            r.spec_mineval() == self.spec_mineval(),
            r.spec_maxeval() == self.spec_maxeval(),
            r.spec_nnew() == self.spec_nnew(),
            r.spec_nmin() == self.spec_nmin(),
            r.spec_flatness() == self.spec_flatness(),
            r.spec_flags() == self.spec_flags(),
    {
        Suave { seed, ..self }
    }

    /// Uses a different number of new samples per subdivision.
    pub fn with_nnew(self, nnew: usize) -> (r: Self)
        ensures
            r.spec_nnew() == nnew,
            r.spec_mineval() == self.spec_mineval(),
            r.spec_maxeval() == self.spec_maxeval(),
            r.spec_seed() == self.spec_seed(),
            r.spec_nmin() == self.spec_nmin(),
            r.spec_flatness() == self.spec_flatness(),
            r.spec_flags() == self.spec_flags(),
    {
        Suave { nnew, ..self }
    }

    /// Uses a different lower bound on the samples a subregion keeps.
    pub fn with_nmin(self, nmin: usize) -> (r: Self)
        ensures
            r.spec_nmin() == nmin,
            r.spec_mineval() == self.spec_mineval(),
            r.spec_maxeval() == self.spec_maxeval(),
            r.spec_seed() == self.spec_seed(),
            r.spec_nnew() == self.spec_nnew(),
            r.spec_flatness() == self.spec_flatness(),
            r.spec_flags() == self.spec_flags(),
    {
        Suave { nmin, ..self }
    }

    /// Uses a different flatness parameter.
    pub fn with_flatness(self, flatness: Real) -> (r: Self)
        ensures
            r.spec_flatness() == flatness,
            r.spec_mineval() == self.spec_mineval(),
            r.spec_maxeval() == self.spec_maxeval(),
            r.spec_seed() == self.spec_seed(),
            r.spec_nnew() == self.spec_nnew(),
            r.spec_nmin() == self.spec_nmin(),
            r.spec_flags() == self.spec_flags(),
    {
        Suave { flatness, ..self }
    }

    /// The routine configuration this adapter hands to the engine: its
    /// own fields, exactly.
    pub fn routine(&self) -> (r: CubaRoutine)
        ensures
            r == (CubaRoutine::Suave {
                mineval: self.spec_mineval(),
                maxeval: self.spec_maxeval(),
                seed: self.spec_seed(),
                nnew: self.spec_nnew(),
                nmin: self.spec_nmin(),
                flatness: self.spec_flatness(),
                flags: self.spec_flags(),
            }),
    {
        CubaRoutine::Suave {
            mineval: self.mineval,
            maxeval: self.maxeval,
            seed: self.seed,
            nnew: self.nnew,
            nmin: self.nmin,
            flatness: self.flatness,
            flags: self.flags,
        }
    }

    /// Integrates `fun` over the unit hypercube to the requested
    /// tolerances, running the routine through `engine` under exactly
    /// this adapter's configuration.
    pub fn integrate<F: Integrand, E: CubaEngine<F>>(
        &mut self,
        engine: &mut E,
        fun: F,
        epsrel: Real,
        epsabs: Real,
    ) -> (r: Result<CubaIntegrationResults, IntegrationFailure<CubaError>>)
        requires
            epsrel.non_negative(),
            epsabs.non_negative(),
        ensures
            *final(self) == *old(self),
            cuba_outcome::<F>("suave", true, r),
    {
        let routine = self.routine();
        run_cuba(routine, engine, fun, epsrel, epsabs)
    }
}

impl Default for Suave {
    /// The default configuration, as `new` builds it.
    fn default() -> (r: Self)
        ensures
            r.spec_mineval() == 1,
            r.spec_maxeval() == usize::MAX / 2,
            r.spec_seed() == 0,
            r.spec_nnew() == 1000,
            r.spec_nmin() == 5,
            r.spec_flatness().bits == SUAVE_FLATNESS_BITS,
            r.spec_flags() == 0,
    {
        Suave::new()
    }
}

} // verus!
