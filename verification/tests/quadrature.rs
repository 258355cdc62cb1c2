use integrators::IntegrationFailure;
use integrators::Real;
use integrators::ffi::{CapturedFailure, LandingPad};
use integrators::gsl::{
    GSLErrorCode, GSLIntegrationError, QAG, QAGI, QAGIL, QAGIU, QAGP, QAGRule, QAGS, QAWC, QNG,
    QuadratureEngine, QuadratureKind, QuadraturePlan, QuadratureReport,
};
use integrators::traits::Integrand;

fn r(x: f64) -> Real {
    Real::from_bits(x.to_bits())
}

fn f(x: Real) -> f64 {
    f64::from_bits(x.to_bits())
}

struct Square;

impl Integrand for Square {
    type Input = Real;
    type Output = Real;

    fn invoke(&mut self, x: Real) -> Result<Real, String> {
        Ok(r(f(x) * f(x)))
    }
}

struct TwoArgs;

impl Integrand for TwoArgs {
    type Input = (Real, Real);
    type Output = Real;

    fn invoke(&mut self, (a, b): (Real, Real)) -> Result<Real, String> {
        Ok(r(f(a) + f(b)))
    }
}

struct TwoOutputs;

impl Integrand for TwoOutputs {
    type Input = Real;
    type Output = (Real, Real);

    fn invoke(&mut self, _x: Real) -> Result<(Real, Real), String> {
        Ok((r(1.0), r(1.0)))
    }
}

struct ThreeInputsTwoOutputs;

impl Integrand for ThreeInputsTwoOutputs {
    type Input = (Real, Real, Real);
    type Output = (Real, Real);

    fn invoke(&mut self, (a, b, c): (Real, Real, Real)) -> Result<(Real, Real), String> {
        Ok((r(f(a) * f(b)), r(f(b) * f(c))))
    }
}

struct InvSqOffset;

impl Integrand for InvSqOffset {
    type Input = Real;
    type Output = Real;

    fn invoke(&mut self, x: Real) -> Result<Real, String> {
        Ok(r(1.0 / ((f(x) - 0.5) * (f(x) - 0.5))))
    }
}

struct RaisesAboveNine;

impl Integrand for RaisesAboveNine {
    type Input = Real;
    type Output = Real;

    fn invoke(&mut self, x: Real) -> Result<Real, String> {
        if f(x) > 0.9 {
            Err(String::from("pole ahead"))
        } else {
            Ok(x)
        }
    }
}

/// A simple deterministic quadrature engine standing in for the foreign
/// library: midpoint sums at two resolutions, the singularity status when
/// they disagree beyond the tolerances.
struct MidpointEngine {
    runs: usize,
    probes: usize,
}

impl MidpointEngine {
    fn new() -> Self {
        MidpointEngine { runs: 0, probes: 0 }
    }

    fn bounds(plan: &QuadraturePlan) -> (f64, f64) {
        match &plan.kind {
            QuadratureKind::Qng { range_low, range_high } => (f(*range_low), f(*range_high)),
            QuadratureKind::Qag { range_low, range_high, .. } => (f(*range_low), f(*range_high)),
            QuadratureKind::Qags { range_low, range_high, .. } => (f(*range_low), f(*range_high)),
            QuadratureKind::Qawc { range_low, range_high, .. } => (f(*range_low), f(*range_high)),
            QuadratureKind::Qagp { points, .. } => (f(points[0]), f(points[points.len() - 1])),
            QuadratureKind::Qagi { .. } => (-1.0, 1.0),
            QuadratureKind::Qagiu { lower_bound, .. } => (f(*lower_bound), f(*lower_bound) + 1.0),
            QuadratureKind::Qagil { upper_bound, .. } => (f(*upper_bound) - 1.0, f(*upper_bound)),
        }
    }

    fn midpoint_sum<F: Integrand>(
        pad: &mut LandingPad<F>,
        lo: f64,
        hi: f64,
        n: usize,
    ) -> Option<f64> {
        let h = (hi - lo) / n as f64;
        let mut sum = 0.0;
        for i in 0..n {
            let x = lo + (i as f64 + 0.5) * h;
            let mut out = vec![r(0.0)];
            match pad.try_call(&[r(x)], &mut out) {
                Ok(()) => sum += f(out[0]),
                Err(_) => return None,
            }
        }
        Some(sum * h)
    }
}

impl<F: Integrand> QuadratureEngine<F> for MidpointEngine {
    fn probe_point(&mut self, plan: &QuadraturePlan) -> Real {
        self.probes += 1;
        let (lo, hi) = Self::bounds(plan);
        r((lo + hi) / 2.0)
    }

    fn run(&mut self, plan: &QuadraturePlan, pad: &mut LandingPad<F>) -> QuadratureReport {
        self.runs += 1;
        let (lo, hi) = Self::bounds(plan);
        let coarse = Self::midpoint_sum(pad, lo, hi, 501);
        let fine = Self::midpoint_sum(pad, lo, hi, 1001);
        let (a, b) = match (coarse, fine) {
            (Some(a), Some(b)) => (a, b),
            // the pad captured a failure: the report is disregarded once
            // the adapter resumes it
            _ => return QuadratureReport { status: 0, value: r(0.0), error: r(0.0) },
        };
        let epsrel = f(plan.epsrel);
        let epsabs = f(plan.epsabs);
        let disagreement = (a - b).abs();
        if !b.is_finite() || disagreement > epsabs.max(epsrel * b.abs()) {
            // singularity or too little convergence for this engine
            QuadratureReport { status: 21, value: r(b), error: r(disagreement) }
        } else {
            QuadratureReport { status: 0, value: r(b), error: r(disagreement + 1e-12) }
        }
    }
}

fn quadratic_1(x: f64) -> f64 {
    x * x - 3f64 * x + 17.3
}

struct Quadratic1;

impl Integrand for Quadratic1 {
    type Input = Real;
    type Output = Real;

    fn invoke(&mut self, x: Real) -> Result<Real, String> {
        Ok(r(quadratic_1(f(x))))
    }
}

fn quadratic_1_integral(range_low: f64, range_high: f64) -> f64 {
    let cubic = (range_high.powi(3) - range_low.powi(3)) / 3f64;
    let quadratic = (range_high.powi(2) - range_low.powi(2)) / 2f64;
    cubic - 3f64 * quadratic + 17.3 * (range_high - range_low)
}

#[test]
fn test_quadratic() {
    let mut qng = QNG::new(r(0.0), r(1.0));
    let mut qag = QAG::new(10);
    let mut engine = MidpointEngine::new();
    let ranges = vec![(0.0, 1.0), (1.0, 2.0), (2.0, 4.0), (-10.0, 30.0)];
    for (low, high) in ranges.into_iter() {
        qng = qng.with_range(r(low), r(high));
        qag = qag.with_range(r(low), r(high));
        let exp = quadratic_1_integral(low, high);
        let qng_res = qng
            .integrate(&mut engine, Quadratic1, r(1e-3), r(1e-6))
            .expect("should converge");
        let qag_res = qag
            .integrate(&mut engine, Quadratic1, r(1e-3), r(1e-6))
            .expect("should converge");
        assert!((f(qng_res.value) - exp).abs() <= f(qng_res.error));
        assert!((f(qag_res.value) - exp).abs() <= f(qag_res.error));
    }
}

#[test]
fn test_invalid_dims() {
    let mut qng = QNG::new(r(0.0), r(1.0));
    let mut engine = MidpointEngine::new();
    assert_eq!(
        qng.integrate(&mut engine, TwoArgs, r(1e-3), r(1e-6)),
        Err(IntegrationFailure::Error(GSLIntegrationError::InvalidInputDim(2)))
    );
    assert_eq!(
        qng.integrate(&mut engine, TwoOutputs, r(1e-3), r(1e-6)),
        Err(IntegrationFailure::Error(GSLIntegrationError::InvalidOutputDim(2)))
    );
    assert_eq!(
        qng.integrate(&mut engine, ThreeInputsTwoOutputs, r(1e-3), r(1e-6)),
        Err(IntegrationFailure::Error(GSLIntegrationError::InvalidInputDim(3)))
    );
}

#[test]
fn dimension_mismatch_never_reaches_the_routine() {
    let mut qag = QAG::new(100);
    let mut engine = MidpointEngine::new();
    let res = qag.integrate(&mut engine, TwoArgs, r(1e-6), r(1e-10));
    assert_eq!(
        res,
        Err(IntegrationFailure::Error(GSLIntegrationError::InvalidInputDim(2)))
    );
    assert_eq!(engine.runs, 0);
    assert_eq!(engine.probes, 0);
}

#[test]
fn output_mismatch_stops_before_the_routine_runs() {
    let mut qag = QAG::new(100);
    let mut engine = MidpointEngine::new();
    let res = qag.integrate(&mut engine, TwoOutputs, r(1e-6), r(1e-10));
    assert_eq!(
        res,
        Err(IntegrationFailure::Error(GSLIntegrationError::InvalidOutputDim(2)))
    );
    assert_eq!(engine.runs, 0);
}

#[test]
fn quadratic_converges_within_the_estimate() {
    let mut qag = QAG::new(1000);
    let mut engine = MidpointEngine::new();
    let res = qag.integrate(&mut engine, Square, r(1e-6), r(1e-10)).unwrap();
    assert!((f(res.value) - 1.0 / 3.0).abs() <= f(res.error));
}

#[test]
fn singular_integrand_is_reported_not_guessed() {
    let mut qag = QAG::new(1000).with_range(r(0.0), r(1.0));
    let mut engine = MidpointEngine::new();
    let res = qag.integrate(&mut engine, InvSqOffset, r(1e-6), r(1e-10));
    match res {
        Err(IntegrationFailure::Error(GSLIntegrationError::GSLError(GSLErrorCode::Sing))) => {},
        other => panic!("expected the singularity status, got {:?}", other),
    }
}

#[test]
fn integrand_failure_resurfaces_through_integrate() {
    let mut qags = QAGS::new(1000);
    let mut engine = MidpointEngine::new();
    let res = qags.integrate(&mut engine, RaisesAboveNine, r(1e-6), r(1e-10));
    match res {
        Err(IntegrationFailure::Integrand(CapturedFailure::Raised(m))) => {
            assert_eq!(m, "pole ahead");
        },
        other => panic!("expected the integrand's payload, got {:?}", other),
    }
}

#[test]
fn probe_failure_propagates_immediately() {
    struct RaisesEverywhere;

    impl Integrand for RaisesEverywhere {
        type Input = Real;
        type Output = Real;

        fn invoke(&mut self, _x: Real) -> Result<Real, String> {
            Err(String::from("nothing to see"))
        }
    }

    let mut qng = QNG::new(r(0.0), r(1.0));
    let mut engine = MidpointEngine::new();
    let res = qng.integrate(&mut engine, RaisesEverywhere, r(1e-3), r(1e-6));
    match res {
        Err(IntegrationFailure::Integrand(CapturedFailure::Raised(m))) => {
            assert_eq!(m, "nothing to see");
        },
        other => panic!("expected the probe failure, got {:?}", other),
    }
    assert_eq!(engine.runs, 0);
}

struct AlwaysNan;

impl Integrand for AlwaysNan {
    type Input = Real;
    type Output = Real;

    fn invoke(&mut self, _x: Real) -> Result<Real, String> {
        Ok(r(f64::NAN))
    }
}

struct AlwaysInfinite;

impl Integrand for AlwaysInfinite {
    type Input = Real;
    type Output = Real;

    fn invoke(&mut self, _x: Real) -> Result<Real, String> {
        Ok(r(f64::INFINITY))
    }
}

// the original expectation is the foreign library's exact code and
// description; under the deterministic engine the point that carries over
// is that a NaN-producing integrand yields a typed backend error, never a
// silent success
#[test]
fn test_error_handling_nan() {
    let mut qng = QNG::new(r(0.0), r(1.0));
    let mut engine = MidpointEngine::new();
    let res = qng
        .integrate(&mut engine, AlwaysNan, r(1e-6), r(1e-10))
        .expect_err("integration should fail");
    match res {
        IntegrationFailure::Error(GSLIntegrationError::GSLError(code)) => {
            assert_ne!(code.raw(), 0);
            assert_eq!(code, GSLErrorCode::Sing);
        },
        other => panic!("expected a backend error, got {:?}", other),
    }
}

#[test]
fn test_error_handling_pos_inf() {
    let mut qng = QNG::new(r(0.0), r(1.0));
    let mut engine = MidpointEngine::new();
    let res = qng
        .integrate(&mut engine, AlwaysInfinite, r(1e-6), r(1e-10))
        .expect_err("integration should fail");
    match res {
        IntegrationFailure::Error(GSLIntegrationError::GSLError(code)) => {
            assert_ne!(code.raw(), 0);
            assert_eq!(code, GSLErrorCode::Sing);
        },
        other => panic!("expected a backend error, got {:?}", other),
    }
}

#[test]
fn plans_carry_the_adapter_configuration() {
    let qag = QAG::new(64).with_range(r(2.0), r(5.0)).with_rule(QAGRule::Gauss21);
    match qag.plan(r(1e-4), r(1e-8)).kind {
        QuadratureKind::Qag { range_low, range_high, rule, nintervals } => {
            assert_eq!(range_low, r(2.0));
            assert_eq!(range_high, r(5.0));
            assert_eq!(rule, QAGRule::Gauss21);
            assert_eq!(nintervals, 64);
        },
        other => panic!("wrong routine planned: {:?}", other),
    }

    let qng = QNG::new(r(-1.0), r(1.0));
    let p = qng.plan(r(1e-4), r(1e-8));
    assert_eq!(p.epsrel, r(1e-4));
    assert_eq!(p.epsabs, r(1e-8));
    match p.kind {
        QuadratureKind::Qng { range_low, range_high } => {
            assert_eq!(range_low, r(-1.0));
            assert_eq!(range_high, r(1.0));
        },
        other => panic!("wrong routine planned: {:?}", other),
    }

    let qagp = QAGP::new(32, vec![r(0.0), r(0.5), r(1.0)]).unwrap();
    match qagp.plan(r(1e-4), r(1e-8)).kind {
        QuadratureKind::Qagp { points, nintervals } => {
            assert_eq!(points, vec![r(0.0), r(0.5), r(1.0)]);
            assert_eq!(nintervals, 32);
        },
        other => panic!("wrong routine planned: {:?}", other),
    }

    let qawc = QAWC::new(16).with_singularity(r(0.25));
    match qawc.plan(r(1e-4), r(1e-8)).kind {
        QuadratureKind::Qawc { range_low, range_high, c, nintervals } => {
            assert_eq!(range_low, r(0.0));
            assert_eq!(range_high, r(1.0));
            assert_eq!(c, r(0.25));
            assert_eq!(nintervals, 16);
        },
        other => panic!("wrong routine planned: {:?}", other),
    }

    let qagiu = QAGIU::new(8, r(3.0));
    match qagiu.plan(r(1e-4), r(1e-8)).kind {
        QuadratureKind::Qagiu { lower_bound, nintervals } => {
            assert_eq!(lower_bound, r(3.0));
            assert_eq!(nintervals, 8);
        },
        other => panic!("wrong routine planned: {:?}", other),
    }
}

#[test]
fn singular_point_lists_are_validated() {
    assert!(QAGP::new(1000, vec![r(0.0), r(0.5), r(1.0)]).is_some());
    assert!(QAGP::new(1000, vec![r(0.0)]).is_none());
    assert!(QAGP::new(1000, vec![]).is_none());
    assert!(QAGP::new(1000, vec![r(1.0), r(0.0)]).is_none());
    assert!(QAGP::new(1000, vec![r(0.0), r(0.5), r(0.5), r(1.0)]).is_none());

    let qagp = QAGP::new(1000, vec![r(0.0), r(0.5), r(1.0)]).unwrap();
    assert_eq!(qagp.singularities(), &[r(0.0), r(0.5), r(1.0)]);
    let rebuilt = qagp.with_points(vec![r(0.0), r(1.0)]).unwrap();
    assert_eq!(rebuilt.singularities(), &[r(0.0), r(1.0)]);
    assert!(rebuilt.with_points(vec![r(3.0), r(2.0)]).is_none());
}

#[test]
fn known_singular_points_integrate_between_the_bounds() {
    let mut qagp = QAGP::new(1000, vec![r(0.0), r(0.25), r(1.0)]).unwrap();
    let mut engine = MidpointEngine::new();
    let res = qagp.integrate(&mut engine, Square, r(1e-6), r(1e-10)).unwrap();
    assert!((f(res.value) - 1.0 / 3.0).abs() <= f(res.error));
}

#[test]
fn infinite_range_adapters_run_their_plans() {
    let mut engine = MidpointEngine::new();
    let mut qagi = QAGI::new(500).with_nintervals(800);
    assert!(qagi.integrate(&mut engine, Square, r(1e-4), r(1e-8)).is_ok());
    let mut qagiu = QAGIU::new(500, r(2.0)).with_nintervals(800);
    assert!(qagiu.integrate(&mut engine, Square, r(1e-4), r(1e-8)).is_ok());
    let mut qagil = QAGIL::new(500, r(2.0)).with_nintervals(800);
    assert!(qagil.integrate(&mut engine, Square, r(1e-4), r(1e-8)).is_ok());
    assert_eq!(engine.runs, 3);
}

#[test]
fn principal_value_adapter_runs_its_plan() {
    let mut qawc = QAWC::new(1000).with_range(r(2.0), r(3.0)).with_singularity(r(2.5));
    let mut engine = MidpointEngine::new();
    let res = qawc.integrate(&mut engine, Square, r(1e-5), r(1e-9)).unwrap();
    // the integral of the square over two to three
    assert!((f(res.value) - 19.0 / 3.0).abs() <= f(res.error));
}

#[test]
fn quadrature_rules_expose_their_keys() {
    assert_eq!(QAGRule::Gauss15.raw(), 1);
    assert_eq!(QAGRule::Gauss21.raw(), 2);
    assert_eq!(QAGRule::Gauss31.raw(), 3);
    assert_eq!(QAGRule::Gauss41.raw(), 4);
    assert_eq!(QAGRule::Gauss51.raw(), 5);
    assert_eq!(QAGRule::Gauss61.raw(), 6);
    let mut qag = QAG::new(10).with_rule(QAGRule::Gauss21).with_range(r(0.0), r(2.0));
    let mut engine = MidpointEngine::new();
    assert!(qag.integrate(&mut engine, Square, r(1e-4), r(1e-8)).is_ok());
}
