use integrators::Real;
use integrators::ffi::{CapturedFailure, LandingPad};
use integrators::traits::{ArityMismatch, Integrand};

fn r(x: f64) -> Real {
    Real::from_bits(x.to_bits())
}

/// Fails on its k-th invocation and counts how often it was invoked.
struct FailsOnKth {
    k: usize,
    calls: usize,
}

impl Integrand for FailsOnKth {
    type Input = Real;
    type Output = Real;

    fn invoke(&mut self, x: Real) -> Result<Real, String> {
        self.calls += 1;
        if self.calls == self.k {
            Err(format!("broke on call {}", self.calls))
        } else {
            Ok(x)
        }
    }
}

/// Always raises the same payload.
struct AlwaysRaises;

impl Integrand for AlwaysRaises {
    type Input = Real;
    type Output = Real;

    fn invoke(&mut self, _x: Real) -> Result<Real, String> {
        Err(String::from("the integrand's own payload"))
    }
}

/// Returns a vector of a configurable length.
struct VariableWidth {
    width: usize,
}

impl Integrand for VariableWidth {
    type Input = Real;
    type Output = Vec<Real>;

    fn invoke(&mut self, x: Real) -> Result<Vec<Real>, String> {
        Ok(vec![x; self.width])
    }
}

#[test]
fn fail_once_freezes_the_invocation_counter() {
    let mut pad = LandingPad::new(FailsOnKth { k: 3, calls: 0 });
    let mut out: Vec<Real> = vec![r(0.0)];
    assert!(pad.try_call(&[r(1.0)], &mut out).is_ok());
    assert!(pad.try_call(&[r(2.0)], &mut out).is_ok());
    let first_failure = pad.try_call(&[r(3.0)], &mut out).unwrap_err();
    // every further call reports the same failure, and the integrand is
    // not invoked again: the counter stays frozen at k
    for _ in 0..5 {
        let again = pad.try_call(&[r(4.0)], &mut out).unwrap_err();
        assert_eq!(again, first_failure);
    }
    match pad.finish() {
        Some(CapturedFailure::Raised(m)) => assert_eq!(m, "broke on call 3"),
        other => panic!("expected the captured payload, got {:?}", other),
    }
}

#[test]
fn resume_reports_the_payload_a_direct_call_raises() {
    // what a direct, untrampolined call would have raised
    let direct = AlwaysRaises.invoke(r(0.5)).unwrap_err();

    let mut pad = LandingPad::new(AlwaysRaises);
    let mut out: Vec<Real> = vec![r(0.0)];
    pad.try_call(&[r(0.5)], &mut out).unwrap_err();
    match pad.maybe_resume_unwind() {
        Err(CapturedFailure::Raised(m)) => assert_eq!(m, direct),
        other => panic!("expected the raised payload, got {:?}", other),
    }
}

#[test]
fn resume_is_silent_without_a_failure() {
    let mut pad = LandingPad::new(FailsOnKth { k: 10, calls: 0 });
    let mut out: Vec<Real> = vec![r(0.0)];
    assert!(pad.try_call(&[r(1.0)], &mut out).is_ok());
    assert_eq!(out[0], r(1.0));
    assert!(pad.maybe_resume_unwind().is_ok());
}

#[test]
fn finish_is_empty_without_a_failure() {
    let pad = LandingPad::new(AlwaysRaises);
    assert!(pad.finish().is_none());
}

#[test]
fn input_arity_mismatch_is_captured() {
    let mut pad = LandingPad::new(FailsOnKth { k: 10, calls: 0 });
    let mut out: Vec<Real> = vec![r(0.0)];
    let f = pad.try_call(&[r(1.0), r(2.0)], &mut out).unwrap_err();
    assert_eq!(f, CapturedFailure::Arity(ArityMismatch { expected: 1, actual: 2 }));
    // fail once holds for arity failures too
    let again = pad.try_call(&[r(1.0)], &mut out).unwrap_err();
    assert_eq!(again, f);
}

#[test]
fn output_arity_mismatch_is_captured() {
    let mut pad = LandingPad::new(VariableWidth { width: 3 });
    let mut out: Vec<Real> = vec![r(0.0); 2];
    let f = pad.try_call(&[r(1.0)], &mut out).unwrap_err();
    assert_eq!(f, CapturedFailure::Arity(ArityMismatch { expected: 2, actual: 3 }));
    assert!(out.iter().all(|&x| x == r(0.0)));
}

#[test]
fn matching_vector_output_is_written() {
    let mut pad = LandingPad::new(VariableWidth { width: 2 });
    let mut out: Vec<Real> = vec![r(0.0); 2];
    assert!(pad.try_call(&[r(7.0)], &mut out).is_ok());
    assert_eq!(out, vec![r(7.0), r(7.0)]);
}

#[test]
fn raw_call_does_not_intercept() {
    let mut pad = LandingPad::new(AlwaysRaises);
    let direct = pad.raw_call(&[r(0.5)]).unwrap_err();
    assert_eq!(direct, "the integrand's own payload");
    // the boundary state is untouched: nothing was captured
    assert!(pad.finish().is_none());
}
