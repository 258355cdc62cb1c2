//! Adapters for a family of deterministic adaptive-quadrature routines.
//!
//! Every routine in this family integrates a one-dimensional integrand:
//! an adapter first checks both arities — the input arity statically, the
//! output arity by one probe call at a representative point — then wraps
//! the integrand in a landing pad, hands the pad to the foreign routine
//! through a [`QuadratureEngine`], re-surfaces any failure the pad
//! captured, and maps the routine's status code to a typed outcome. Each
//! adapter differs only in the routine it plans and in the configuration
//! it carries.

use vstd::prelude::*;

use crate::IntegrationFailure;
use crate::IntegrationResult;
use crate::ffi::{CapturedFailure, LandingPad};
use crate::scalar::Real;
use crate::traits::{Integrand, IntegrandInput, IntegrandOutput};

mod qag;
mod qagi;
mod qagp;
mod qags;
mod qawc;
mod qng;

pub use qag::{QAG, QAGRule};
pub use qagi::{QAGI, QAGIL, QAGIU};
pub use qagp::QAGP;
pub use qags::QAGS;
pub use qawc::QAWC;
pub use qng::QNG;

verus! {

/// The status a routine reports on success.
pub const GSL_SUCCESS: i32 = 0;

/// Domain error on the input arguments.
pub const GSL_EDOM: i32 = 1;

/// The maximum number of subdivisions was reached.
pub const GSL_EMAXITER: i32 = 11;

/// The requested tolerance cannot be reached because of round-off error.
pub const GSL_EROUND: i32 = 18;

/// A non-integrable singularity or other bad integrand behaviour was
/// found.
pub const GSL_ESING: i32 = 21;

/// The integral is divergent, or converges too slowly for the routine.
pub const GSL_EDIVERGE: i32 = 22;

/// An error code a quadrature routine can report: one dedicated variant
/// per documented integration error code, and `Other` carrying any code
/// outside that set unchanged.
#[derive(Copy, Clone, Debug, PartialEq, Eq, Structural)]
pub enum GSLErrorCode {
    /// The maximum number of iterations has been reached.
    MaxIter,
    /// The integration could not converge because of round-off error.
    Round,
    /// The integrand contains a non-integrable singularity, or behaves
    /// too poorly for the routine.
    Sing,
    /// The integral is divergent, or too slowly convergent, for the
    /// chosen algorithm.
    Diverge,
    /// Domain error on the input arguments.
    Domain,
    /// A status code that is no integration-specific error.
    Other(i32),
}

impl GSLErrorCode {
    /// The raw status code the variant stands for.
    pub open spec fn spec_raw(self) -> i32 {
        match self {
            GSLErrorCode::MaxIter => GSL_EMAXITER,
            GSLErrorCode::Round => GSL_EROUND,
            GSLErrorCode::Sing => GSL_ESING,
            GSLErrorCode::Diverge => GSL_EDIVERGE,
            GSLErrorCode::Domain => GSL_EDOM,
            GSLErrorCode::Other(n) => n,
        }
    }

    /// Yields the raw return code.
    pub fn raw(&self) -> (n: i32)
        ensures
            n == self.spec_raw(),
    {
        match self {
            GSLErrorCode::MaxIter => GSL_EMAXITER,
            GSLErrorCode::Round => GSL_EROUND,
            GSLErrorCode::Sing => GSL_ESING,
            GSLErrorCode::Diverge => GSL_EDIVERGE,
            GSLErrorCode::Domain => GSL_EDOM,
            GSLErrorCode::Other(n) => *n,
        }
    }

    /// The variant a raw status code maps to.
    pub open spec fn spec_from_raw(n: i32) -> GSLErrorCode {
        if n == GSL_EMAXITER {
            GSLErrorCode::MaxIter
        } else if n == GSL_EROUND {
            GSLErrorCode::Round
        } else if n == GSL_ESING {
            GSLErrorCode::Sing
        } else if n == GSL_EDIVERGE {
            GSLErrorCode::Diverge
        } else if n == GSL_EDOM {
            GSLErrorCode::Domain
        } else {
            GSLErrorCode::Other(n)
        }
    }

    /// Maps a raw status code to its variant: each documented
    /// integration error code gets its dedicated variant, and every
    /// other code is carried unchanged.
    pub fn from_raw(n: i32) -> (c: GSLErrorCode)
        ensures
            c == Self::spec_from_raw(n),
    {
        if n == GSL_EMAXITER {
            GSLErrorCode::MaxIter
        } else if n == GSL_EROUND {
            GSLErrorCode::Round
        } else if n == GSL_ESING {
            GSLErrorCode::Sing
        } else if n == GSL_EDIVERGE {
            GSLErrorCode::Diverge
        } else if n == GSL_EDOM {
            GSLErrorCode::Domain
        } else {
            GSLErrorCode::Other(n)
        }
    }
}

/// Translating a raw status code to its variant keeps the code: the raw
/// code can always be read back unchanged.
pub proof fn lemma_from_raw_keeps_code(n: i32)
    ensures
        GSLErrorCode::spec_from_raw(n).spec_raw() == n,
{
}

/// The status-code mapping is injective: two distinct raw codes never
/// share a variant, so each code in the documented range maps to exactly
/// one error.
pub proof fn lemma_from_raw_injective(a: i32, b: i32)
    requires
        GSLErrorCode::spec_from_raw(a) == GSLErrorCode::spec_from_raw(b),
    ensures
        a == b,
{
    lemma_from_raw_keeps_code(a);
    lemma_from_raw_keeps_code(b);
}

/// An error of the quadrature family: an arity rejected before any
/// foreign call, or a status code the routine reported.
#[derive(Copy, Clone, Debug, PartialEq, Eq, Structural)]
pub enum GSLIntegrationError {
    /// The integrand demands more than one input dimension.
    InvalidInputDim(usize),
    /// The integrand produces more than one output dimension.
    InvalidOutputDim(usize),
    /// The routine reported this error code.
    GSLError(GSLErrorCode),
}

/// The result of a fallible step of the quadrature family.
pub type GSLResult<T> = Result<T, GSLIntegrationError>;

/// One value and its error estimate, as a quadrature routine reports
/// them.
#[derive(Copy, Clone, Debug, PartialEq, Eq, Structural)]
pub struct GSLIntegrationResult {
    pub value: Real,
    pub error: Real,
}

/// What one quadrature invocation asks of the foreign library: the
/// routine with its configuration, and the requested tolerances.
#[derive(Clone, Debug)]
pub struct QuadraturePlan {
    /// The routine to invoke, with its per-routine configuration.
    pub kind: QuadratureKind,
    /// The requested relative tolerance.
    pub epsrel: Real,
    /// The requested absolute tolerance.
    pub epsabs: Real,
}

/// The routine one plan invokes. Workspace-backed routines carry the
/// subinterval budget their workspace is sized to.
#[derive(Clone, Debug)]
pub enum QuadratureKind {
    /// Non-adaptive Gauss-Kronrod quadrature over a finite range.
    Qng { range_low: Real, range_high: Real },
    /// General adaptive quadrature over a finite range, with a fixed
    /// Gauss-Kronrod rule.
    Qag { range_low: Real, range_high: Real, rule: QAGRule, nintervals: usize },
    /// Adaptive quadrature with extrapolation around integrable
    /// singularities.
    Qags { range_low: Real, range_high: Real, nintervals: usize },
    /// Adaptive quadrature over bounds and known singular points given as
    /// an ascending list; its first and last entries are the bounds.
    Qagp { points: Vec<Real>, nintervals: usize },
    /// Adaptive quadrature over the whole real line, by a transform onto
    /// a finite interval.
    Qagi { nintervals: usize },
    /// Adaptive quadrature from a lower bound to positive infinity.
    Qagiu { lower_bound: Real, nintervals: usize },
    /// Adaptive quadrature from negative infinity to an upper bound.
    Qagil { upper_bound: Real, nintervals: usize },
    /// Adaptive quadrature of a Cauchy principal value around the
    /// singular point `c`.
    Qawc { range_low: Real, range_high: Real, c: Real, nintervals: usize },
}

/// What a quadrature routine reports back: its status code and the value
/// and error-estimate cells it filled.
#[derive(Copy, Clone, Debug, PartialEq, Eq, Structural)]
pub struct QuadratureReport {
    /// The routine's return code; the success status is zero.
    pub status: i32,
    /// The computed value.
    pub value: Real,
    /// The estimate of the value's absolute error.
    pub error: Real,
}

/// The foreign quadrature library, as the adapters see it: it chooses the
/// representative probe point for a plan, and runs the plan's routine
/// against a landing pad.
///
/// The trait promises nothing — everything the adapters ensure holds for
/// every probe point and every report an implementation can return. An
/// implementation over the real library hands the pad's `try_call` to the
/// routine as its callback; on a captured failure the callback signals
/// the routine to abort through the status-code channel, never by
/// unwinding, and the routine's own error handling must be kept from
/// tearing the process down so the status can reach the adapter.
pub trait QuadratureEngine<F: Integrand> {
    /// A representative input inside the plan's integration range, used
    /// for the one probe call — typically the midpoint of the range.
    fn probe_point(&mut self, plan: &QuadraturePlan) -> Real;

    /// Invokes the plan's routine, which may call the landing pad any
    /// number of times, and reports the status and result cells.
    fn run(&mut self, plan: &QuadraturePlan, pad: &mut LandingPad<F>) -> QuadratureReport;
}

/// Maps a routine's report to the caller-visible outcome: the success
/// status yields the value with its error estimate, and every other
/// status yields exactly the corresponding error code.
pub fn interpret_report(report: &QuadratureReport) -> (r: GSLResult<IntegrationResult>)
    ensures
        report.status == GSL_SUCCESS ==> r == Ok::<IntegrationResult, GSLIntegrationError>(
            IntegrationResult { value: report.value, error: report.error },
        ),
        report.status != GSL_SUCCESS ==> r == Err::<IntegrationResult, GSLIntegrationError>(
            GSLIntegrationError::GSLError(GSLErrorCode::spec_from_raw(report.status)),
        ),
{
    if report.status == GSL_SUCCESS {
        Ok(IntegrationResult { value: report.value, error: report.error })
    } else {
        Err(GSLIntegrationError::GSLError(GSLErrorCode::from_raw(report.status)))
    }
}

/// What every quadrature adapter promises of its outcome, whatever the
/// engine returned: a wrong input arity is reported exactly and an
/// accepted one is one-dimensional; a reported output arity is a real
/// mismatch; and a reported error code is never the success status.
pub open spec fn quadrature_outcome<F: Integrand>(
    r: Result<IntegrationResult, IntegrationFailure<GSLIntegrationError>>,
) -> bool {
    let arity = <F::Input as IntegrandInput>::spec_input_size();
    &&& arity != 1 ==> r == Err::<IntegrationResult, IntegrationFailure<GSLIntegrationError>>(
        IntegrationFailure::Error(GSLIntegrationError::InvalidInputDim(arity)),
    )
    &&& r matches Err(IntegrationFailure::Error(GSLIntegrationError::InvalidInputDim(n))) ==> n
        == arity && n != 1
    &&& r matches Err(IntegrationFailure::Error(GSLIntegrationError::InvalidOutputDim(n))) ==> arity
        == 1 && n != 1
    &&& r matches Err(IntegrationFailure::Error(GSLIntegrationError::GSLError(c)))
        ==> arity == 1 && c.spec_raw() != GSL_SUCCESS
    &&& r is Ok ==> arity == 1
}

/// The procedure every adapter of this family shares: check the input
/// arity statically and the output arity by one probe call, wrap the
/// integrand in a landing pad, run the plan's routine, re-surface any
/// failure the pad captured, and map the status code.
///
/// A probe failure propagates immediately — no foreign call has started,
/// so no boundary is needed.
pub fn run_quadrature<F: Integrand, E: QuadratureEngine<F>>(
    plan: &QuadraturePlan,
    engine: &mut E,
    fun: F,
) -> (r: Result<IntegrationResult, IntegrationFailure<GSLIntegrationError>>)
    ensures
        quadrature_outcome::<F>(r),
{
    let n = <F::Input as IntegrandInput>::input_size();
    if n != 1 {
        return Err(IntegrationFailure::Error(GSLIntegrationError::InvalidInputDim(n)));
    }
    let mut pad = LandingPad::new(fun);
    let probe = engine.probe_point(plan);
    let probe_args: Vec<Real> = vec![probe];
    let first = match pad.raw_call(probe_args.as_slice()) {
        Ok(b) => b,
        Err(m) => {
            return Err(IntegrationFailure::Integrand(CapturedFailure::Raised(m)));
        },
    };
    let m = first.output_size();
    if m != 1 {
        return Err(IntegrationFailure::Error(GSLIntegrationError::InvalidOutputDim(m)));
    }
    let report = engine.run(plan, &mut pad);
    match pad.maybe_resume_unwind() {
        Err(f) => {
            return Err(IntegrationFailure::Integrand(f));
        },
        Ok(()) => {},
    }
    match interpret_report(&report) {
        Ok(res) => Ok(res),
        Err(e) => {
            proof {
                lemma_from_raw_keeps_code(report.status);
            }
            Err(IntegrationFailure::Error(e))
        },
    }
}

} // verus!
