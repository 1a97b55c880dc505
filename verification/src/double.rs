//! Double-precision numbers, held by their IEEE-754 bit patterns.

use vstd::prelude::*;

verus! {

/// Every bit but the sign.
pub const MAGNITUDE_MASK: u64 = 0x7fff_ffff_ffff_ffff;

/// The exponent bits; all of them set mark an infinity or a NaN.
pub const EXPONENT_MASK: u64 = 0x7ff0_0000_0000_0000;

/// A double-precision number as its 64 bits: sign, 11 exponent bits, 52
/// fraction bits.
#[derive(Clone, Copy, Debug)]
pub struct Double {
    pub bits: u64,
}

impl Double {
    /// Sign and exponent clear, fraction clear: plus or minus zero.
    pub open spec fn is_zero(self) -> bool {
        self.bits & MAGNITUDE_MASK == 0
    }

    /// All exponent bits set and a fraction that is not zero.
    pub open spec fn is_nan(self) -> bool {
        self.bits & MAGNITUDE_MASK > EXPONENT_MASK
    }

    /// Neither an infinity nor a NaN.
    pub open spec fn is_finite(self) -> bool {
        self.bits & EXPONENT_MASK != EXPONENT_MASK
    }

    /// Numeric equality: a NaN equals nothing, the two zeros equal each
    /// other, and any other two numbers are equal when their bits are.
    pub open spec fn equals(self, other: Double) -> bool {
        &&& !self.is_nan()
        &&& !other.is_nan()
        &&& (self.bits == other.bits || (self.is_zero() && other.is_zero()))
    }

    pub fn from_bits(bits: u64) -> (d: Double)
        ensures
            d.bits == bits,
    {
        Double { bits }
    }

    pub fn to_bits(&self) -> (bits: u64)
        ensures
            bits == self.bits,
    {
        self.bits
    }

    pub fn zero(&self) -> (r: bool)
        ensures
            r == self.is_zero(),
    {
        self.bits & MAGNITUDE_MASK == 0
    }

    pub fn nan(&self) -> (r: bool)
        ensures
            r == self.is_nan(),
    {
        self.bits & MAGNITUDE_MASK > EXPONENT_MASK
    }

    pub fn finite(&self) -> (r: bool)
        ensures
            r == self.is_finite(),
    {
        self.bits & EXPONENT_MASK != EXPONENT_MASK
    }

    /// Numeric equality of two doubles.
    pub fn same(&self, other: &Double) -> (r: bool)
        ensures
            r == self.equals(*other),
    {
        !self.nan() && !other.nan() && (self.bits == other.bits || (self.zero() && other.zero()))
    }

    /// A finite number is no NaN.
    pub proof fn lemma_finite_is_no_nan(self)
        requires
            self.is_finite(),
        ensures
            !self.is_nan(),
    {
        let b = self.bits;
        assert(b & 0x7ff0_0000_0000_0000 != 0x7ff0_0000_0000_0000 ==> !(b & 0x7fff_ffff_ffff_ffff
            > 0x7ff0_0000_0000_0000)) by (bit_vector);
    }

    /// Numeric equality is symmetric.
    pub proof fn lemma_equals_symmetric(self, other: Double)
        ensures
            self.equals(other) == other.equals(self),
    {
    }
}

} // verus!
