//! The marshaling layer and the integrand interface.
//!
//! A foreign integration routine exchanges nothing but flat buffers of
//! double-precision values. Every semantic shape the library supports —
//! the scalar, the fixed tuples up to arity eight, and the
//! variable-length vector — therefore carries one canonical,
//! bidirectional, arity-checked mapping to such a buffer, stated by the
//! spec function `components` and implemented by `from_args` and
//! `into_args`. The checks run on every conversion: a dynamic-length
//! output may legitimately change its arity between calls, and a mismatch
//! must be caught before it corrupts the foreign buffer.

use vstd::prelude::*;

use crate::IntegrationResult;
use crate::scalar::Real;

verus! {

/// An arity check failed: a flat buffer's length differs from what the
/// value's shape requires.
#[derive(Copy, Clone, Debug, PartialEq, Eq, Structural)]
pub struct ArityMismatch {
    /// The length the conversion required.
    pub expected: usize,
    /// The length that was found.
    pub actual: usize,
}

/// A value that can be written to a flat output buffer.
pub trait IntegrandOutput {
    /// The flat buffer form of the value.
    spec fn components(&self) -> Seq<Real>;

    /// The number of output dimensions of this value. Fixed tuples report
    /// their static arity; a vector reports its actual length.
    fn output_size(&self) -> (n: usize)
        ensures
            n == self.components().len(),
    ;

    /// Writes the value's flat form into `output`, which must already
    /// have exactly the value's arity; on a mismatch the buffer is left
    /// unchanged and the expected and found lengths are reported.
    fn into_args(&self, output: &mut Vec<Real>) -> (r: Result<(), ArityMismatch>)
        ensures
            r is Ok <==> old(output)@.len() == self.components().len(),
            r is Ok ==> final(output)@ == self.components(),
            r matches Err(e) ==> final(output)@ == old(output)@ && e.expected == old(
                output,
            )@.len() && e.actual == self.components().len(),
    ;
}

/// A value that can be read back from a flat input buffer. Input shapes
/// have a static arity, so the type also determines its flat form and is
/// determined by it.
pub trait IntegrandInput: IntegrandOutput + Sized {
    /// The arity of the input type: a property of the type alone.
    spec fn spec_input_size() -> usize;

    /// Every value's flat form has exactly the static arity.
    proof fn components_len(&self)
        ensures
            self.components().len() == Self::spec_input_size(),
    ;

    /// The flat form determines the value.
    proof fn components_injective(a: Self, b: Self)
        requires
            a.components() == b.components(),
        ensures
            a == b,
    ;

    /// The arity of the input type.
    fn input_size() -> (n: usize)
        ensures
            n == Self::spec_input_size(),
    ;

    /// Reads a value from a flat buffer of exactly the input arity; a
    /// buffer of any other length is rejected with the expected and found
    /// lengths.
    fn from_args(args: &[Real]) -> (r: Result<Self, ArityMismatch>)
        ensures
            r is Ok <==> args@.len() == Self::spec_input_size(),
            r matches Ok(v) ==> v.components() == args@,
            r matches Err(e) ==> e.expected == Self::spec_input_size() && e.actual == args@.len(),
    ;
}

/// A user integrand: an evaluation step from an input shape to an output
/// shape. `Err` is a failure raised by the integrand itself, carrying its
/// payload; the landing pad captures such a failure at the foreign-call
/// boundary and re-surfaces it, payload unchanged, once control is back
/// on the managed side.
pub trait Integrand {
    type Input: IntegrandInput;

    type Output: IntegrandOutput;

    /// Evaluates the integrand once.
    fn invoke(&mut self, x: Self::Input) -> Result<Self::Output, String>;
}

/// A backend's success record, reducible to one entry per output
/// dimension.
pub trait IntegrationResults: Sized {
    /// The per-dimension results the record holds.
    spec fn spec_results(self) -> Seq<IntegrationResult>;

    /// The per-dimension results, in order.
    fn results(self) -> (r: Vec<IntegrationResult>)
        ensures
            r@ == self.spec_results(),
    ;
}

/// Marshaling round-trip: for every type of fixed input arity, the buffer
/// written by `into_args` determines the value, so reading the buffer
/// back with `from_args` recovers the original value exactly.
pub proof fn lemma_marshal_round_trip<T: IntegrandInput>(x: T, buffer: Seq<Real>, v: T)
    requires
        buffer == x.components(),
        v.components() == buffer,
    ensures
        v == x,
{
    T::components_injective(v, x);
}

impl IntegrandOutput for Real {
    open spec fn components(&self) -> Seq<Real> {
        seq![*self]
    }

    fn output_size(&self) -> (n: usize) {
        1
    }

    fn into_args(&self, output: &mut Vec<Real>) -> (r: Result<(), ArityMismatch>) {
        if output.len() == 1 {
            let mut fresh: Vec<Real> = Vec::new();
            fresh.push(*self);
            *output = fresh;
            proof {
                assert(output@ =~= self.components());
            }
            Ok(())
        } else {
            Err(ArityMismatch { expected: output.len(), actual: 1 })
        }
    }
}

impl IntegrandInput for Real {
    open spec fn spec_input_size() -> usize {
        1
    }

    proof fn components_len(&self) {
    }

    proof fn components_injective(a: Self, b: Self) {
        assert(a == a.components()[0]);
        assert(b == b.components()[0]);
    }

    fn input_size() -> (n: usize) {
        1
    }

    fn from_args(args: &[Real]) -> (r: Result<Self, ArityMismatch>) {
        if args.len() == 1 {
            let v = args[0];
            proof {
                assert(v.components() =~= args@);
            }
            Ok(v)
        } else {
            Err(ArityMismatch { expected: 1, actual: args.len() })
        }
    }
}

impl IntegrandOutput for (Real, Real) {
    open spec fn components(&self) -> Seq<Real> {
        seq![self.0, self.1]
    }

    fn output_size(&self) -> (n: usize) {
        2
    }

    fn into_args(&self, output: &mut Vec<Real>) -> (r: Result<(), ArityMismatch>) {
        if output.len() == 2 {
            let mut fresh: Vec<Real> = Vec::new();
            fresh.push(self.0);
            fresh.push(self.1);
            *output = fresh;
            proof {
                assert(output@ =~= self.components());
            }
            Ok(())
        } else {
            Err(ArityMismatch { expected: output.len(), actual: 2 })
        }
    }
}

impl IntegrandInput for (Real, Real) {
    open spec fn spec_input_size() -> usize {
        2
    }

    proof fn components_len(&self) {
    }

    proof fn components_injective(a: Self, b: Self) {
        assert(a.0 == a.components()[0] && a.1 == a.components()[1]);
        assert(b.0 == b.components()[0] && b.1 == b.components()[1]);
    }

    fn input_size() -> (n: usize) {
        2
    }

    fn from_args(args: &[Real]) -> (r: Result<Self, ArityMismatch>) {
        if args.len() == 2 {
            let v = (args[0], args[1]);
            proof {
                assert(v.components() =~= args@);
            }
            Ok(v)
        } else {
            Err(ArityMismatch { expected: 2, actual: args.len() })
        }
    }
}

impl IntegrandOutput for (Real, Real, Real) {
    open spec fn components(&self) -> Seq<Real> {
        seq![self.0, self.1, self.2]
    }

    fn output_size(&self) -> (n: usize) {
        3
    }

    fn into_args(&self, output: &mut Vec<Real>) -> (r: Result<(), ArityMismatch>) {
        if output.len() == 3 {
            let mut fresh: Vec<Real> = Vec::new();
            fresh.push(self.0);
            fresh.push(self.1);
            fresh.push(self.2);
            *output = fresh;
            proof {
                assert(output@ =~= self.components());
            }
            Ok(())
        } else {
            Err(ArityMismatch { expected: output.len(), actual: 3 })
        }
    }
}

impl IntegrandInput for (Real, Real, Real) {
    open spec fn spec_input_size() -> usize {
        3
    }

    proof fn components_len(&self) {
    }

    proof fn components_injective(a: Self, b: Self) {
        assert(a.0 == a.components()[0] && a.1 == a.components()[1] && a.2 == a.components()[2]);
        assert(b.0 == b.components()[0] && b.1 == b.components()[1] && b.2 == b.components()[2]);
    }

    fn input_size() -> (n: usize) {
        3
    }

    fn from_args(args: &[Real]) -> (r: Result<Self, ArityMismatch>) {
        if args.len() == 3 {
            let v = (args[0], args[1], args[2]);
            proof {
                assert(v.components() =~= args@);
            }
            Ok(v)
        } else {
            Err(ArityMismatch { expected: 3, actual: args.len() })
        }
    }
}

impl IntegrandOutput for (Real, Real, Real, Real) {
    open spec fn components(&self) -> Seq<Real> {
        seq![self.0, self.1, self.2, self.3]
    }

    fn output_size(&self) -> (n: usize) {
        4
    }

    fn into_args(&self, output: &mut Vec<Real>) -> (r: Result<(), ArityMismatch>) {
        if output.len() == 4 {
            let mut fresh: Vec<Real> = Vec::new();
            fresh.push(self.0);
            fresh.push(self.1);
            fresh.push(self.2);
            fresh.push(self.3);
            *output = fresh;
            proof {
                assert(output@ =~= self.components());
            }
            Ok(())
        } else {
            Err(ArityMismatch { expected: output.len(), actual: 4 })
        }
    }
}

impl IntegrandInput for (Real, Real, Real, Real) {
    open spec fn spec_input_size() -> usize {
        4
    }

    proof fn components_len(&self) {
    }

    proof fn components_injective(a: Self, b: Self) {
        assert(a.0 == a.components()[0] && a.1 == a.components()[1] && a.2 == a.components()[2] && a.3 == a.components()[3]);
        assert(b.0 == b.components()[0] && b.1 == b.components()[1] && b.2 == b.components()[2] && b.3 == b.components()[3]);
    }

    fn input_size() -> (n: usize) {
        4
    }

    fn from_args(args: &[Real]) -> (r: Result<Self, ArityMismatch>) {
        if args.len() == 4 {
            let v = (args[0], args[1], args[2], args[3]);
            proof {
                assert(v.components() =~= args@);
            }
            Ok(v)
        } else {
            Err(ArityMismatch { expected: 4, actual: args.len() })
        }
    }
}

impl IntegrandOutput for (Real, Real, Real, Real, Real) {
    open spec fn components(&self) -> Seq<Real> {
        seq![self.0, self.1, self.2, self.3, self.4]
    }

    fn output_size(&self) -> (n: usize) {
        5
    }

    fn into_args(&self, output: &mut Vec<Real>) -> (r: Result<(), ArityMismatch>) {
        if output.len() == 5 {
            let mut fresh: Vec<Real> = Vec::new();
            fresh.push(self.0);
            fresh.push(self.1);
            fresh.push(self.2);
            fresh.push(self.3);
            fresh.push(self.4);
            *output = fresh;
            proof {
                assert(output@ =~= self.components());
            }
            Ok(())
        } else {
            Err(ArityMismatch { expected: output.len(), actual: 5 })
        }
    }
}

impl IntegrandInput for (Real, Real, Real, Real, Real) {
    open spec fn spec_input_size() -> usize {
        5
    }

    proof fn components_len(&self) {
    }

    proof fn components_injective(a: Self, b: Self) {
        assert(a.0 == a.components()[0] && a.1 == a.components()[1] && a.2 == a.components()[2] && a.3 == a.components()[3] && a.4 == a.components()[4]);
        assert(b.0 == b.components()[0] && b.1 == b.components()[1] && b.2 == b.components()[2] && b.3 == b.components()[3] && b.4 == b.components()[4]);
    }

    fn input_size() -> (n: usize) {
        5
    }

    fn from_args(args: &[Real]) -> (r: Result<Self, ArityMismatch>) {
        if args.len() == 5 {
            let v = (args[0], args[1], args[2], args[3], args[4]);
            proof {
                assert(v.components() =~= args@);
            }
            Ok(v)
        } else {
            Err(ArityMismatch { expected: 5, actual: args.len() })
        }
    }
}

impl IntegrandOutput for (Real, Real, Real, Real, Real, Real) {
    open spec fn components(&self) -> Seq<Real> {
        seq![self.0, self.1, self.2, self.3, self.4, self.5]
    }

    fn output_size(&self) -> (n: usize) {
        6
    }

    fn into_args(&self, output: &mut Vec<Real>) -> (r: Result<(), ArityMismatch>) {
        if output.len() == 6 {
            let mut fresh: Vec<Real> = Vec::new();
            fresh.push(self.0);
            fresh.push(self.1);
            fresh.push(self.2);
            fresh.push(self.3);
            fresh.push(self.4);
            fresh.push(self.5);
            *output = fresh;
            proof {
                assert(output@ =~= self.components());
            }
            Ok(())
        } else {
            Err(ArityMismatch { expected: output.len(), actual: 6 })
        }
    }
}

impl IntegrandInput for (Real, Real, Real, Real, Real, Real) {
    open spec fn spec_input_size() -> usize {
        6
    }

    proof fn components_len(&self) {
    }

    proof fn components_injective(a: Self, b: Self) {
        assert(a.0 == a.components()[0] && a.1 == a.components()[1] && a.2 == a.components()[2] && a.3 == a.components()[3] && a.4 == a.components()[4] && a.5 == a.components()[5]);
        assert(b.0 == b.components()[0] && b.1 == b.components()[1] && b.2 == b.components()[2] && b.3 == b.components()[3] && b.4 == b.components()[4] && b.5 == b.components()[5]);
    }

    fn input_size() -> (n: usize) {
        6
    }

    fn from_args(args: &[Real]) -> (r: Result<Self, ArityMismatch>) {
        if args.len() == 6 {
            let v = (args[0], args[1], args[2], args[3], args[4], args[5]);
            proof {
                assert(v.components() =~= args@);
            }
            Ok(v)
        } else {
            Err(ArityMismatch { expected: 6, actual: args.len() })
        }
    }
}

impl IntegrandOutput for (Real, Real, Real, Real, Real, Real, Real) {
    open spec fn components(&self) -> Seq<Real> {
        seq![self.0, self.1, self.2, self.3, self.4, self.5, self.6]
    }

    fn output_size(&self) -> (n: usize) {
        7
    }

    fn into_args(&self, output: &mut Vec<Real>) -> (r: Result<(), ArityMismatch>) {
        if output.len() == 7 {
            let mut fresh: Vec<Real> = Vec::new();
            fresh.push(self.0);
            fresh.push(self.1);
            fresh.push(self.2);
            fresh.push(self.3);
            fresh.push(self.4);
            fresh.push(self.5);
            fresh.push(self.6);
            *output = fresh;
            proof {
                assert(output@ =~= self.components());
            }
            Ok(())
        } else {
            Err(ArityMismatch { expected: output.len(), actual: 7 })
        }
    }
}

impl IntegrandInput for (Real, Real, Real, Real, Real, Real, Real) {
    open spec fn spec_input_size() -> usize {
        7
    }

    proof fn components_len(&self) {
    }

    proof fn components_injective(a: Self, b: Self) {
        assert(a.0 == a.components()[0] && a.1 == a.components()[1] && a.2 == a.components()[2] && a.3 == a.components()[3] && a.4 == a.components()[4] && a.5 == a.components()[5] && a.6 == a.components()[6]);
        assert(b.0 == b.components()[0] && b.1 == b.components()[1] && b.2 == b.components()[2] && b.3 == b.components()[3] && b.4 == b.components()[4] && b.5 == b.components()[5] && b.6 == b.components()[6]);
    }

    fn input_size() -> (n: usize) {
        7
    }

    fn from_args(args: &[Real]) -> (r: Result<Self, ArityMismatch>) {
        if args.len() == 7 {
            let v = (args[0], args[1], args[2], args[3], args[4], args[5], args[6]);
            proof {
                assert(v.components() =~= args@);
            }
            Ok(v)
        } else {
            Err(ArityMismatch { expected: 7, actual: args.len() })
        }
    }
}

impl IntegrandOutput for (Real, Real, Real, Real, Real, Real, Real, Real) {
    open spec fn components(&self) -> Seq<Real> {
        seq![self.0, self.1, self.2, self.3, self.4, self.5, self.6, self.7]
    }

    fn output_size(&self) -> (n: usize) {
        8
    }

    fn into_args(&self, output: &mut Vec<Real>) -> (r: Result<(), ArityMismatch>) {
        if output.len() == 8 {
            let mut fresh: Vec<Real> = Vec::new();
            fresh.push(self.0);
            fresh.push(self.1);
            fresh.push(self.2);
            fresh.push(self.3);
            fresh.push(self.4);
            fresh.push(self.5);
            fresh.push(self.6);
            fresh.push(self.7);
            *output = fresh;
            proof {
                assert(output@ =~= self.components());
            }
            Ok(())
        } else {
            Err(ArityMismatch { expected: output.len(), actual: 8 })
        }
    }
}

impl IntegrandInput for (Real, Real, Real, Real, Real, Real, Real, Real) {
    open spec fn spec_input_size() -> usize {
        8
    }

    proof fn components_len(&self) {
    }

    proof fn components_injective(a: Self, b: Self) {
        assert(a.0 == a.components()[0] && a.1 == a.components()[1] && a.2 == a.components()[2] && a.3 == a.components()[3] && a.4 == a.components()[4] && a.5 == a.components()[5] && a.6 == a.components()[6] && a.7 == a.components()[7]);
        assert(b.0 == b.components()[0] && b.1 == b.components()[1] && b.2 == b.components()[2] && b.3 == b.components()[3] && b.4 == b.components()[4] && b.5 == b.components()[5] && b.6 == b.components()[6] && b.7 == b.components()[7]);
    }

    fn input_size() -> (n: usize) {
        8
    }

    fn from_args(args: &[Real]) -> (r: Result<Self, ArityMismatch>) {
        if args.len() == 8 {
            let v = (args[0], args[1], args[2], args[3], args[4], args[5], args[6], args[7]);
            proof {
                assert(v.components() =~= args@);
            }
            Ok(v)
        } else {
            Err(ArityMismatch { expected: 8, actual: args.len() })
        }
    }
}

impl IntegrandOutput for Vec<Real> {
    open spec fn components(&self) -> Seq<Real> {
        self@
    }

    fn output_size(&self) -> (n: usize) {
        self.len()
    }

    fn into_args(&self, output: &mut Vec<Real>) -> (r: Result<(), ArityMismatch>) {
        if output.len() == self.len() {
            let n = self.len();
            let mut fresh: Vec<Real> = Vec::new();
            for i in 0..n
                invariant
                    n == self@.len(),
                    fresh@ =~= self@.take(i as int),
            {
                fresh.push(self[i]);
            }
            *output = fresh;
            proof {
                assert(output@ =~= self@);
            }
            Ok(())
        } else {
            Err(ArityMismatch { expected: output.len(), actual: self.len() })
        }
    }
}

} // verus!
