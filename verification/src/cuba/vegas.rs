//! Importance-sampling Monte Carlo integration.

use vstd::prelude::*;

use crate::IntegrationFailure;
use crate::scalar::Real;
use crate::traits::Integrand;

use super::{CubaEngine, CubaError, CubaIntegrationResults, CubaRoutine, cuba_outcome, run_cuba};

verus! {

/// Importance-sampling Monte Carlo integration over an adaptively
/// refined grid. It reports no subregion count.
#[derive(Copy, Clone, Debug)]
pub struct Vegas {
    mineval: usize,
    maxeval: usize,
    seed: usize,
    nstart: usize,
    nincrease: usize,
    nbatch: usize,
    gridno: u8,
    flags: i32,
}

impl Vegas {
    /// The fewest integrand evaluations to use.
    pub closed spec fn spec_mineval(&self) -> usize {
        self.mineval
    }

    /// The most integrand evaluations to use.
    pub closed spec fn spec_maxeval(&self) -> usize {
        self.maxeval
    }

    /// The random-number seed.
    pub closed spec fn spec_seed(&self) -> usize {
        self.seed
    }

    /// The number of samples of the first iteration.
    pub closed spec fn spec_nstart(&self) -> usize {
        self.nstart
    }

    /// The sample-count increase per iteration.
    pub closed spec fn spec_nincrease(&self) -> usize {
        self.nincrease
    }

    /// The number of samples evaluated per batch.
    pub closed spec fn spec_nbatch(&self) -> usize {
        self.nbatch
    }

    /// The slot of the internal grid to reuse, zero for none.
    pub closed spec fn spec_gridno(&self) -> u8 {
        self.gridno
    }

    /// The routine's flag word.
    pub closed spec fn spec_flags(&self) -> i32 {
        self.flags
    }

    /// Creates a new Vegas with the default configuration.
    pub fn new() -> (r: Self)
        ensures
            r.spec_mineval() == 1,
            r.spec_maxeval() == usize::MAX / 2,
            r.spec_seed() == 0,
            r.spec_nstart() == 1000,
            r.spec_nincrease() == 500,
            r.spec_nbatch() == 1000,
            r.spec_gridno() == 0,
            r.spec_flags() == 0,
    {
        Vegas {
            mineval: 1,
            maxeval: usize::MAX / 2,
            seed: 0,
            nstart: 1000,
            nincrease: 500,
            nbatch: 1000,
            gridno: 0,
            flags: 0,
        }
    }

    /// Uses a different lower bound on the evaluation count.
    pub fn with_mineval(self, mineval: usize) -> (r: Self)
        ensures
            r.spec_mineval() == mineval,
            r.spec_maxeval() == self.spec_maxeval(),
            r.spec_seed() == self.spec_seed(),
            r.spec_nstart() == self.spec_nstart(),
            r.spec_nincrease() == self.spec_nincrease(),
            r.spec_nbatch() == self.spec_nbatch(),
            r.spec_gridno() == self.spec_gridno(),
            r.spec_flags() == self.spec_flags(),
    {
        Vegas { mineval, ..self }
    }

    /// Uses a different upper bound on the evaluation count.
    pub fn with_maxeval(self, maxeval: usize) -> (r: Self)
        ensures
            r.spec_maxeval() == maxeval,
            r.spec_mineval() == self.spec_mineval(),
            r.spec_seed() == self.spec_seed(),
            r.spec_nstart() == self.spec_nstart(),
            r.spec_nincrease() == self.spec_nincrease(),
            r.spec_nbatch() == self.spec_nbatch(),
            r.spec_gridno() == self.spec_gridno(),
            r.spec_flags() == self.spec_flags(),
    {
        Vegas { maxeval, ..self }
    }

    /// Uses a different random-number seed.
    pub fn with_seed(self, seed: usize) -> (r: Self)
        ensures
            r.spec_seed() == seed,
            r.spec_mineval() == self.spec_mineval(),
            r.spec_maxeval() == self.spec_maxeval(),
            r.spec_nstart() == self.spec_nstart(),
            r.spec_nincrease() == self.spec_nincrease(),
            r.spec_nbatch() == self.spec_nbatch(),
            r.spec_gridno() == self.spec_gridno(),
            r.spec_flags() == self.spec_flags(),
    {
        Vegas { seed, ..self }
    }

    /// Uses a different sample count for the first iteration.
    pub fn with_nstart(self, nstart: usize) -> (r: Self)
        ensures
            r.spec_nstart() == nstart,
            r.spec_mineval() == self.spec_mineval(),
            r.spec_maxeval() == self.spec_maxeval(),
            r.spec_seed() == self.spec_seed(),
            r.spec_nincrease() == self.spec_nincrease(),
            r.spec_nbatch() == self.spec_nbatch(),
            r.spec_gridno() == self.spec_gridno(),
            r.spec_flags() == self.spec_flags(),
    {
        Vegas { nstart, ..self }
    }

    /// Uses a different sample-count increase per iteration.
    pub fn with_nincrease(self, nincrease: usize) -> (r: Self)
        ensures
            r.spec_nincrease() == nincrease,
            r.spec_mineval() == self.spec_mineval(),
            r.spec_maxeval() == self.spec_maxeval(),
            r.spec_seed() == self.spec_seed(),
            r.spec_nstart() == self.spec_nstart(),
            r.spec_nbatch() == self.spec_nbatch(),
            r.spec_gridno() == self.spec_gridno(),
            r.spec_flags() == self.spec_flags(),
    {
        Vegas { nincrease, ..self }
    }

    /// Uses a different batch size.
    pub fn with_nbatch(self, nbatch: usize) -> (r: Self)
        ensures
            r.spec_nbatch() == nbatch,
            r.spec_mineval() == self.spec_mineval(),
            r.spec_maxeval() == self.spec_maxeval(),
            r.spec_seed() == self.spec_seed(),
            r.spec_nstart() == self.spec_nstart(),
            r.spec_nincrease() == self.spec_nincrease(),
            r.spec_gridno() == self.spec_gridno(),
            r.spec_flags() == self.spec_flags(),
    {
        Vegas { nbatch, ..self }
    }

    /// The routine configuration this adapter hands to the engine: its
    /// own fields, exactly.
    pub fn routine(&self) -> (r: CubaRoutine)
        ensures
            r == (CubaRoutine::Vegas {
                mineval: self.spec_mineval(),
                maxeval: self.spec_maxeval(),
                seed: self.spec_seed(),
                nstart: self.spec_nstart(),
                nincrease: self.spec_nincrease(),
                nbatch: self.spec_nbatch(),
                gridno: self.spec_gridno(),
                flags: self.spec_flags(),
            }),
    {
        CubaRoutine::Vegas {
            mineval: self.mineval,
            maxeval: self.maxeval,
            seed: self.seed,
            nstart: self.nstart,
            nincrease: self.nincrease,
            nbatch: self.nbatch,
            gridno: self.gridno,
            flags: self.flags,
        }
    }

    /// Integrates `fun` over the unit hypercube to the requested
    /// tolerances, running the routine through `engine` under exactly
    /// this adapter's configuration.
    pub fn integrate<F: Integrand, E: CubaEngine<F>>(
        &mut self,
        engine: &mut E,
        fun: F,
        epsrel: Real,
        epsabs: Real,
    ) -> (r: Result<CubaIntegrationResults, IntegrationFailure<CubaError>>)
        requires
            epsrel.non_negative(),
            epsabs.non_negative(),
        ensures
            *final(self) == *old(self),
            cuba_outcome::<F>("vegas", false, r),
    {
        let routine = self.routine();
        run_cuba(routine, engine, fun, epsrel, epsabs)
    }
}

impl Default for Vegas {
    /// The default configuration, as `new` builds it.
    fn default() -> (r: Self)
        ensures
            r.spec_mineval() == 1,
            r.spec_maxeval() == usize::MAX / 2,
            r.spec_seed() == 0,
            r.spec_nstart() == 1000,
            r.spec_nincrease() == 500,
            r.spec_nbatch() == 1000,
            r.spec_gridno() == 0,
            r.spec_flags() == 0,
    {
        Vegas::new()
    }
}

} // verus!
