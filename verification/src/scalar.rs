//! The scalar type exchanged with the foreign routines.

use vstd::prelude::*;

verus! {

/// Bit mask of the sign bit of a double-precision value.
pub const SIGN_MASK: u64 = 0x8000_0000_0000_0000;

/// Bit mask of the exponent field of a double-precision value.
pub const EXPONENT_MASK: u64 = 0x7FF0_0000_0000_0000;

/// Bit mask of the fraction field of a double-precision value.
pub const FRACTION_MASK: u64 = 0x000F_FFFF_FFFF_FFFF;

/// Bit pattern of the double-precision value one.
pub const ONE_BITS: u64 = 0x3FF0_0000_0000_0000;

/// Bit pattern of the double-precision value minus one.
pub const NEG_ONE_BITS: u64 = 0xBFF0_0000_0000_0000;

/// Bit pattern of the double-precision value one half.
pub const HALF_BITS: u64 = 0x3FE0_0000_0000_0000;

/// A double-precision floating-point value, held as its bit pattern.
///
/// The library performs no floating-point arithmetic of its own: values
/// travel unchanged between the caller, the marshaling layer and a
/// foreign routine, so the bit pattern represents them exactly. The
/// comparisons below follow the floating-point rules — a NaN compares
/// with nothing, and the two zeros compare equal — stated bit for bit by
/// the spec functions.
///
/// The derived `==` compares bit patterns; it distinguishes the two
/// zeros and equates a NaN with itself. Value comparison in the
/// floating-point sense is [`Real::spec_eq`].
#[derive(Copy, Clone, Debug, PartialEq, Eq, Structural)]
pub struct Real {
    pub bits: u64,
}

impl Real {
    /// True of the bit patterns that encode a NaN.
    pub open spec fn spec_is_nan(self) -> bool {
        self.bits & EXPONENT_MASK == EXPONENT_MASK && self.bits & FRACTION_MASK != 0
    }

    /// True of the two zero encodings.
    pub open spec fn is_zero(self) -> bool {
        self.bits & !SIGN_MASK == 0
    }

    /// True when the sign bit is set.
    pub open spec fn sign_bit(self) -> bool {
        self.bits & SIGN_MASK != 0
    }

    /// Floating-point equality: false for NaN, and the two zeros are equal.
    pub open spec fn spec_eq(self, other: Real) -> bool {
        &&& !self.spec_is_nan()
        &&& !other.spec_is_nan()
        &&& (self.bits == other.bits || (self.is_zero() && other.is_zero()))
    }

    /// Floating-point strict order over bit patterns.
    ///
    /// Finite values, the infinities and the zeros order as
    /// sign-magnitude integers; a NaN is below nothing and above nothing.
    pub open spec fn spec_lt(self, other: Real) -> bool {
        if self.spec_is_nan() || other.spec_is_nan() {
            false
        } else if self.is_zero() && other.is_zero() {
            false
        } else if !self.sign_bit() && !other.sign_bit() {
            self.bits < other.bits
        } else if self.sign_bit() && other.sign_bit() {
            self.bits > other.bits
        } else {
            self.sign_bit()
        }
    }

    /// Floating-point `<=`.
    pub open spec fn spec_le(self, other: Real) -> bool {
        self.spec_lt(other) || self.spec_eq(other)
    }

    /// Floating-point `>=`.
    pub open spec fn spec_ge(self, other: Real) -> bool {
        other.spec_le(self)
    }

    /// True of every number that is zero or above: what an admissible
    /// tolerance must be.
    pub open spec fn non_negative(self) -> bool {
        self.spec_ge(Real { bits: 0 })
    }

    /// The value with the given bit pattern.
    pub fn from_bits(bits: u64) -> (r: Real)
        ensures
            r.bits == bits,
    {
        Real { bits }
    }

    /// The bit pattern of the value.
    pub fn to_bits(&self) -> (r: u64)
        ensures
            r == self.bits,
    {
        self.bits
    }

    /// The value zero (positive zero's bit pattern).
    pub fn zero() -> (r: Real)
        ensures
            r.bits == 0,
    {
        Real { bits: 0 }
    }

    /// The value one.
    pub fn one() -> (r: Real)
        ensures
            r.bits == ONE_BITS,
    {
        Real { bits: ONE_BITS }
    }

    /// The value minus one.
    pub fn neg_one() -> (r: Real)
        ensures
            r.bits == NEG_ONE_BITS,
    {
        Real { bits: NEG_ONE_BITS }
    }

    /// The value one half.
    pub fn half() -> (r: Real)
        ensures
            r.bits == HALF_BITS,
    {
        Real { bits: HALF_BITS }
    }

    /// Whether the value is a NaN.
    pub fn is_nan(&self) -> (r: bool)
        ensures
            r == self.spec_is_nan(),
    {
        self.bits & EXPONENT_MASK == EXPONENT_MASK && self.bits & FRACTION_MASK != 0
    }

    /// Floating-point `<`.
    pub fn lt(&self, other: &Real) -> (r: bool)
        ensures
            r == self.spec_lt(*other),
    {
        if self.is_nan() || other.is_nan() {
            false
        } else if self.bits & !SIGN_MASK == 0 && other.bits & !SIGN_MASK == 0 {
            false
        } else if self.bits & SIGN_MASK == 0 && other.bits & SIGN_MASK == 0 {
            self.bits < other.bits
        } else if self.bits & SIGN_MASK != 0 && other.bits & SIGN_MASK != 0 {
            self.bits > other.bits
        } else {
            self.bits & SIGN_MASK != 0
        }
    }

    /// Floating-point equality as a call.
    pub fn eq_value(&self, other: &Real) -> (r: bool)
        ensures
            r == self.spec_eq(*other),
    {
        if self.is_nan() || other.is_nan() {
            false
        } else {
            self.bits == other.bits || (self.bits & !SIGN_MASK == 0 && other.bits & !SIGN_MASK
                == 0)
        }
    }

    /// Floating-point `<=`.
    pub fn le(&self, other: &Real) -> (r: bool)
        ensures
            r == self.spec_le(*other),
    {
        self.lt(other) || self.eq_value(other)
    }

    /// Floating-point `>=`.
    pub fn ge(&self, other: &Real) -> (r: bool)
        ensures
            r == self.spec_ge(*other),
    {
        other.le(self)
    }
}

} // verus!
