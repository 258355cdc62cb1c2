//! The callback trampoline: the single safety boundary between a user
//! integrand and a foreign execution context.
//!
//! A foreign routine cannot tolerate a failure propagating through its
//! stack frames, so every failure a call raises — whether by the
//! integrand itself or by an arity check of the marshaling layer — is
//! intercepted here, stored, and handed back only once control has
//! returned to the managed side. The pad enforces a fail-once policy:
//! after the first captured failure the integrand is never invoked again,
//! and every later call reports the same stored failure.

use vstd::prelude::*;

use crate::scalar::Real;
use crate::traits::{ArityMismatch, Integrand, IntegrandInput, IntegrandOutput};

verus! {

/// A failure intercepted at the foreign-call boundary.
#[derive(Debug, PartialEq, Eq)]
pub enum CapturedFailure {
    /// A conversion of the marshaling layer failed during the call.
    Arity(ArityMismatch),
    /// The integrand itself raised a failure with this payload.
    Raised(String),
}

impl Clone for CapturedFailure {
    /// The clone carries the same payload.
    fn clone(&self) -> (r: Self)
        ensures
            r == *self,
    {
        match self {
            CapturedFailure::Arity(a) => CapturedFailure::Arity(*a),
            CapturedFailure::Raised(m) => CapturedFailure::Raised(m.clone()),
        }
    }
}

/// The landing pad owns a user integrand for the duration of one
/// integration call and, after the first failure, the captured failure
/// payload. Once a failure is captured it is never discarded: it must be
/// taken out by `maybe_resume_unwind` or `finish`.
pub struct LandingPad<F: Integrand> {
    err: Option<CapturedFailure>,
    fun: F,
}

impl<F: Integrand> LandingPad<F> {
    /// The failure captured so far, if any.
    pub closed spec fn failure(&self) -> Option<CapturedFailure> {
        self.err
    }

    /// The wrapped integrand, in its current state.
    pub closed spec fn integrand(&self) -> F {
        self.fun
    }

    /// Wraps the integrand. No foreign interaction happens here.
    pub fn new(fun: F) -> (r: Self)
        ensures
            r.failure() is None,
            r.integrand() == fun,
    {
        LandingPad { err: None, fun }
    }

    /// One guarded invocation: reads a value from `args`, applies the
    /// integrand, and writes the result into `output`.
    ///
    /// Every failure — a buffer of the wrong arity on either side, or a
    /// failure raised by the integrand — is captured here and returned;
    /// none propagates. If a failure was already captured by an earlier
    /// call, that same failure is returned at once and the integrand is
    /// not invoked again, so an integrand that failed on its k-th
    /// invocation is invoked exactly k times however often the foreign
    /// routine keeps calling.
    pub fn try_call(&mut self, args: &[Real], output: &mut Vec<Real>) -> (r: Result<
        (),
        CapturedFailure,
    >)
        ensures
    // the result mirrors the stored failure

            r is Ok <==> final(self).failure() is None,
            r matches Err(f) ==> final(self).failure() == Some(f),
            // fail once: an earlier failure is reported again, verbatim, and
            // neither the integrand nor the buffer is touched
            old(self).failure() matches Some(f) ==> *final(self) == *old(self) && final(output)@
                == old(output)@ && r == Err::<(), CapturedFailure>(f),
            // an input of the wrong length is rejected without invoking the
            // integrand
            (old(self).failure() is None && args@.len()
                != <F::Input as IntegrandInput>::spec_input_size() as int) ==> {
                &&& final(self).integrand() == old(self).integrand()
                &&& final(output)@ == old(output)@
                &&& r == Err::<(), CapturedFailure>(
                    CapturedFailure::Arity(
                        ArityMismatch {
                            expected: <F::Input as IntegrandInput>::spec_input_size(),
                            actual: args@.len() as usize,
                        },
                    ),
                )
            },
            // a failure of an invocation that did run is the integrand's own
            // payload, or the output buffer's arity against what the
            // integrand returned
            (old(self).failure() is None && args@.len()
                == <F::Input as IntegrandInput>::spec_input_size() as int) ==> (r matches Err(f)
                ==> match f {
                    CapturedFailure::Arity(am) => {
                        &&& am.expected == old(output)@.len()
                        &&& final(output)@ == old(output)@
                    },
                    CapturedFailure::Raised(_) => true,
                }),
            // on success the buffer keeps its length and holds the flat form
            // of a value the integrand returned
            r is Ok ==> old(self).failure() is None && final(output)@.len() == old(output)@.len()
                && (exists|b: F::Output| final(output)@ == #[trigger] b.components()),
    {
        if let Some(f) = self.err.as_ref() {
            return Err(f.clone());
        }
        match <F::Input as IntegrandInput>::from_args(args) {
            Err(am) => {
                let cf = CapturedFailure::Arity(am);
                self.err = Some(cf.clone());
                Err(cf)
            },
            Ok(x) => match self.fun.invoke(x) {
                Err(msg) => {
                    let cf = CapturedFailure::Raised(msg);
                    self.err = Some(cf.clone());
                    Err(cf)
                },
                Ok(b) => match b.into_args(output) {
                    Err(am) => {
                        let cf = CapturedFailure::Arity(am);
                        self.err = Some(cf.clone());
                        Err(cf)
                    },
                    Ok(()) => {
                        proof {
                            assert(output@ == b.components());
                        }
                        Ok(())
                    },
                },
            },
        }
    }

    /// A direct invocation with no failure interception, for contexts
    /// that provably do not need the boundary — such as the one probe
    /// call an adapter makes before any foreign call has started. The
    /// integrand's own outcome is handed through unchanged, and the
    /// captured-failure state is not touched.
    pub fn raw_call(&mut self, args: &[Real]) -> (r: Result<F::Output, String>)
        requires
            args@.len() == <F::Input as IntegrandInput>::spec_input_size() as int,
        ensures
            final(self).failure() == old(self).failure(),
    {
        match <F::Input as IntegrandInput>::from_args(args) {
            Ok(x) => self.fun.invoke(x),
            Err(_) => {
                proof {
                    assert(false);
                }
                vstd::pervasive::unreached()
            },
        }
    }

    /// Consumes the pad once the foreign frames have unwound. A captured
    /// failure is handed back for the caller to raise on the managed
    /// side, its payload exactly as captured; with no captured failure
    /// the call returns normally.
    pub fn maybe_resume_unwind(self) -> (r: Result<(), CapturedFailure>)
        ensures
            match self.failure() {
                None => r == Ok::<(), CapturedFailure>(()),
                Some(f) => r == Err::<(), CapturedFailure>(f),
            },
    {
        let LandingPad { err, fun: _ } = self;
        match err {
            None => Ok(()),
            Some(f) => Err(f),
        }
    }

    /// Consumes the pad, yielding any captured failure without raising
    /// it — for callers that want to inspect rather than propagate.
    pub fn finish(self) -> (r: Option<CapturedFailure>)
        ensures
            r == self.failure(),
    {
        let LandingPad { err, fun: _ } = self;
        err
    }
}

} // verus!
