//! Adapters for a family of cubature routines over the unit hypercube.
//!
//! Every routine in this family integrates an integrand of any fixed
//! input arity over the unit hypercube, reporting one value, error
//! estimate and trust probability per output dimension. An adapter
//! determines the input arity statically and the output arity by one
//! probe call at the centre of the hypercube, wraps the integrand in a
//! landing pad, hands the pad to the foreign routine through a
//! [`CubaEngine`], re-surfaces any failure the pad captured, and maps the
//! routine's status code to a typed outcome.

use vstd::prelude::*;

use crate::IntegrationFailure;
use crate::IntegrationResult;
use crate::ffi::{CapturedFailure, LandingPad};
use crate::scalar::Real;
use crate::traits::{Integrand, IntegrandInput, IntegrandOutput, IntegrationResults};

mod cuhre;
mod suave;
mod vegas;

pub use cuhre::Cuhre;
pub use suave::Suave;
pub use vegas::Vegas;

verus! {

/// The random number source for the library's Monte Carlo algorithms.
#[derive(Copy, Clone, Debug, PartialEq, Eq, Structural)]
pub enum RandomNumberSource {
    Sobol,
    MersenneTwister,
}

/// One entry of a cubature result.
#[derive(Copy, Clone, Debug, PartialEq, Eq, Structural)]
pub struct CubaIntegrationResult {
    /// The integration result.
    pub value: Real,
    /// An error estimate on the integration result.
    pub error: Real,
    /// How much trust the routine puts in the error estimate, between
    /// zero (good) and one (bad).
    pub prob: Real,
}

/// The success record of a cubature routine.
#[derive(Clone, Debug, PartialEq)]
pub struct CubaIntegrationResults {
    /// The number of subregions used; the importance-sampling routine
    /// does not report one.
    pub nregions: Option<i32>,
    /// The number of integrand evaluations used.
    pub neval: i64,
    /// One entry per output dimension of the integrand.
    pub results: Vec<CubaIntegrationResult>,
}

impl IntegrationResults for CubaIntegrationResults {
    open spec fn spec_results(self) -> Seq<IntegrationResult> {
        self.results@.map_values(
            |c: CubaIntegrationResult| IntegrationResult { value: c.value, error: c.error },
        )
    }

    fn results(self) -> (r: Vec<IntegrationResult>) {
        let n = self.results.len();
        let mut r: Vec<IntegrationResult> = Vec::new();
        for i in 0..n
            invariant
                n == self.results@.len(),
                r@ =~= self.spec_results().take(i as int),
        {
            let c = self.results[i];
            r.push(IntegrationResult { value: c.value, error: c.error });
        }
        proof {
            assert(r@ =~= self.spec_results());
        }
        r
    }
}

/// An error of the cubature family.
#[derive(Clone, Debug, PartialEq)]
pub enum CubaError {
    /// The integrand input's dimension count is not supported by the
    /// named algorithm; the count attempted is carried along.
    BadDim(&'static str, usize),
    /// The integrand output's dimension count is not supported by the
    /// named algorithm; the count attempted is carried along.
    BadComp(&'static str, usize),
    /// The integration did not converge. The results did not reach the
    /// requested uncertainty but may still be useful, so they are carried
    /// along for the caller to accept or reject.
    DidNotConverge(CubaIntegrationResults),
    /// The routine reported a status outside its documented vocabulary: a
    /// defect in the adapter-library contract, to be treated as fatal,
    /// never retried and never coerced to another error.
    UnrecognizedStatus(i32),
}

/// The routine one cubature call invokes, with its configuration.
#[derive(Copy, Clone, Debug)]
pub enum CubaRoutine {
    /// Deterministic cubature applying the rule of the given degree.
    Cuhre { mineval: usize, maxeval: usize, key: u16 },
    /// Subregion-adaptive importance sampling.
    Suave {
        mineval: usize,
        maxeval: usize,
        seed: usize,
        nnew: usize,
        nmin: usize,
        flatness: Real,
        flags: i32,
    },
    /// Importance-sampling Monte Carlo integration.
    Vegas {
        mineval: usize,
        maxeval: usize,
        seed: usize,
        nstart: usize,
        nincrease: usize,
        nbatch: usize,
        gridno: u8,
        flags: i32,
    },
}

impl CubaRoutine {
    /// The routine's name, as its errors report it.
    pub open spec fn spec_name(self) -> &'static str {
        match self {
            CubaRoutine::Cuhre { .. } => "cuhre",
            CubaRoutine::Suave { .. } => "suave",
            CubaRoutine::Vegas { .. } => "vegas",
        }
    }

    /// Yields the routine's name.
    pub fn name(&self) -> (r: &'static str)
        ensures
            r == self.spec_name(),
    {
        match self {
            CubaRoutine::Cuhre { .. } => "cuhre",
            CubaRoutine::Suave { .. } => "suave",
            CubaRoutine::Vegas { .. } => "vegas",
        }
    }

    /// Whether the routine reports a subregion count; the
    /// importance-sampling routine does not.
    pub open spec fn spec_reports_regions(self) -> bool {
        !(self matches CubaRoutine::Vegas { .. })
    }

    /// Yields whether the routine reports a subregion count.
    pub fn reports_regions(&self) -> (r: bool)
        ensures
            r == self.spec_reports_regions(),
    {
        match self {
            CubaRoutine::Vegas { .. } => false,
            _ => true,
        }
    }
}

/// What one cubature invocation asks of the foreign library.
#[derive(Copy, Clone, Debug)]
pub struct CubaCall {
    /// The routine to invoke, with its configuration.
    pub routine: CubaRoutine,
    /// The integrand's input dimension count.
    pub ndim: usize,
    /// The integrand's output dimension count.
    pub ncomp: usize,
    /// The requested relative tolerance.
    pub epsrel: Real,
    /// The requested absolute tolerance.
    pub epsabs: Real,
}

/// What a cubature routine reports back.
#[derive(Clone, Debug)]
pub struct CubaReport {
    /// The routine's status: zero on success; one when the requested
    /// uncertainty was not reached; minus one and minus two for an
    /// unsupported input or output dimension count.
    pub fail: i32,
    /// The number of subregions used.
    pub nregions: i32,
    /// The number of integrand evaluations used.
    pub neval: i64,
    /// The computed values, one per output dimension.
    pub value: Vec<Real>,
    /// The error estimates, one per output dimension.
    pub error: Vec<Real>,
    /// The trust probabilities, one per output dimension.
    pub prob: Vec<Real>,
}

/// The foreign cubature library, as the adapters see it: it supplies the
/// probe coordinate and runs a call's routine against a landing pad.
///
/// The trait promises nothing — everything the adapters ensure holds for
/// every report an implementation can return. An implementation over the
/// real library hands the pad's `try_call` to the routine as its
/// callback; on a captured failure the callback signals the routine to
/// abort through the status-code channel, never by unwinding. It must
/// also disable the library's process-forking parallelism before every
/// invocation: forked execution of a routine holding the landing pad is
/// never permitted.
pub trait CubaEngine<F: Integrand> {
    /// One coordinate of the probe point: the probe evaluates the
    /// integrand at the point whose every coordinate is this value,
    /// typically one half — the centre of the unit hypercube.
    fn probe_coordinate(&mut self) -> Real;

    /// Invokes the call's routine, which may call the landing pad any
    /// number of times, and reports the status and the result buffers.
    fn run(&mut self, call: &CubaCall, pad: &mut LandingPad<F>) -> CubaReport;
}

/// The number of complete result entries a report holds: the shortest of
/// its three buffers. A conforming routine fills all three to exactly the
/// output dimension count.
pub open spec fn spec_entry_count(report: CubaReport) -> int {
    vstd::math::min(
        vstd::math::min(report.value@.len() as int, report.error@.len() as int),
        report.prob@.len() as int,
    )
}

/// Zips the per-dimension buffers of a report into result entries, one
/// per dimension the routine filled.
pub fn zip_report(report: &CubaReport) -> (r: Vec<CubaIntegrationResult>)
    ensures
        r@.len() == spec_entry_count(*report),
        forall|i: int|
            0 <= i < r@.len() ==> r@[i] == (CubaIntegrationResult {
                value: report.value@[i],
                error: report.error@[i],
                prob: report.prob@[i],
            }),
{
    let mut n = report.value.len();
    if report.error.len() < n {
        n = report.error.len();
    }
    if report.prob.len() < n {
        n = report.prob.len();
    }
    let mut r: Vec<CubaIntegrationResult> = Vec::new();
    for i in 0..n
        invariant
            n as int == spec_entry_count(*report),
            r@.len() == i,
            forall|j: int|
                0 <= j < i ==> r@[j] == (CubaIntegrationResult {
                    value: report.value@[j],
                    error: report.error@[j],
                    prob: report.prob@[j],
                }),
    {
        r.push(
            CubaIntegrationResult {
                value: report.value[i],
                error: report.error[i],
                prob: report.prob[i],
            },
        );
    }
    r
}

/// Maps a routine's status code to the caller-visible outcome, exactly:
/// zero is success; minus one and minus two report the input or output
/// dimension count as unsupported, naming the algorithm and the count;
/// one is non-convergence, carrying the best-effort results; any other
/// code is the distinct, fatal unrecognized-status error.
pub fn interpret_status(
    fail: i32,
    name: &'static str,
    ndim: usize,
    ncomp: usize,
    results: CubaIntegrationResults,
) -> (r: Result<CubaIntegrationResults, CubaError>)
    ensures
        fail == 0 ==> r == Ok::<CubaIntegrationResults, CubaError>(results),
        fail == -1 ==> r == Err::<CubaIntegrationResults, CubaError>(CubaError::BadDim(name, ndim)),
        fail == -2 ==> r == Err::<CubaIntegrationResults, CubaError>(
            CubaError::BadComp(name, ncomp),
        ),
        fail == 1 ==> r == Err::<CubaIntegrationResults, CubaError>(
            CubaError::DidNotConverge(results),
        ),
        (fail != 0 && fail != -1 && fail != -2 && fail != 1) ==> r == Err::<
            CubaIntegrationResults,
            CubaError,
        >(CubaError::UnrecognizedStatus(fail)),
{
    if fail == 0 {
        Ok(results)
    } else if fail == -1 {
        Err(CubaError::BadDim(name, ndim))
    } else if fail == -2 {
        Err(CubaError::BadComp(name, ncomp))
    } else if fail == 1 {
        Err(CubaError::DidNotConverge(results))
    } else {
        Err(CubaError::UnrecognizedStatus(fail))
    }
}

/// What every cubature adapter promises of its outcome, whatever the
/// engine returned: a dimension error names the adapter's own routine and
/// an input-dimension error carries the integrand's true arity; a result
/// record carries a subregion count exactly when the routine provides
/// one.
pub open spec fn cuba_outcome<F: Integrand>(
    routine_name: &'static str,
    regions: bool,
    r: Result<CubaIntegrationResults, IntegrationFailure<CubaError>>,
) -> bool {
    let arity = <F::Input as IntegrandInput>::spec_input_size();
    &&& r matches Err(IntegrationFailure::Error(CubaError::BadDim(nm, k))) ==> nm == routine_name
        && k == arity
    &&& r matches Err(IntegrationFailure::Error(CubaError::BadComp(nm, k))) ==> nm == routine_name
    &&& r matches Ok(res) ==> (res.nregions is Some <==> regions)
    &&& r matches Err(IntegrationFailure::Error(CubaError::DidNotConverge(res))) ==> (res.nregions
        is Some <==> regions)
}

/// The call one integration hands to the engine: the adapter's routine,
/// the integrand's input arity as the dimension count, the probed value's
/// output size as the component count, and the requested tolerances —
/// each tied to its source exactly.
pub fn assemble_call<F: Integrand>(
    routine: CubaRoutine,
    probed: &F::Output,
    epsrel: Real,
    epsabs: Real,
) -> (c: CubaCall)
    ensures
        c.routine == routine,
        c.ndim == <F::Input as IntegrandInput>::spec_input_size(),
        c.ncomp == probed.components().len(),
        c.epsrel == epsrel,
        c.epsabs == epsabs,
{
    CubaCall {
        routine,
        ndim: <F::Input as IntegrandInput>::input_size(),
        ncomp: probed.output_size(),
        epsrel,
        epsabs,
    }
}

/// The procedure every adapter of this family shares: determine the
/// input arity statically and the output arity by one probe call at the
/// centre of the unit hypercube, wrap the integrand in a landing pad, run
/// the routine, re-surface any failure the pad captured, and map the
/// status code. The routines check the dimension counts themselves and
/// answer through the status channel; a probe failure propagates
/// immediately, since no foreign call has started.
pub fn run_cuba<F: Integrand, E: CubaEngine<F>>(
    routine: CubaRoutine,
    engine: &mut E,
    fun: F,
    epsrel: Real,
    epsabs: Real,
) -> (r: Result<CubaIntegrationResults, IntegrationFailure<CubaError>>)
    ensures
        cuba_outcome::<F>(routine.spec_name(), routine.spec_reports_regions(), r),
{
    let ndim = <F::Input as IntegrandInput>::input_size();
    let mut pad = LandingPad::new(fun);
    let coord = engine.probe_coordinate();
    let mut probe_args: Vec<Real> = Vec::new();
    for _i in 0..ndim
        invariant
            probe_args@.len() == _i,
    {
        probe_args.push(coord);
    }
    let first = match pad.raw_call(probe_args.as_slice()) {
        Ok(b) => b,
        Err(m) => {
            return Err(IntegrationFailure::Integrand(CapturedFailure::Raised(m)));
        },
    };
    let name = routine.name();
    let regions = routine.reports_regions();
    let call = assemble_call::<F>(routine, &first, epsrel, epsabs);
    let report = engine.run(&call, &mut pad);
    match pad.maybe_resume_unwind() {
        Err(f) => {
            return Err(IntegrationFailure::Integrand(f));
        },
        Ok(()) => {},
    }
    let entries = zip_report(&report);
    let nregions = if regions {
        Some(report.nregions)
    } else {
        None
    };
    let results = CubaIntegrationResults { nregions, neval: report.neval, results: entries };
    match interpret_status(report.fail, name, call.ndim, call.ncomp, results) {
        Ok(res) => Ok(res),
        Err(e) => Err(IntegrationFailure::Error(e)),
    }
}

} // verus!
