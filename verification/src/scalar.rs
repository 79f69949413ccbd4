//! Coordinates as bit patterns.

use vstd::prelude::*;

verus! {

/// The sign bit of an IEEE-754 binary32 value.
pub const SIGN_BIT: u32 = 0x8000_0000;

/// The bit pattern of `1.0`.
pub const ONE_BITS: u32 = 0x3f80_0000;

/// An IEEE-754 binary32 value, held by its bit pattern.
#[derive(Clone, Copy, Debug, PartialEq, Eq, Structural)]
pub struct Scalar {
    pub bits: u32,
}

/// The pattern that differs from `bits` in the sign bit and nowhere else.
pub open spec fn sign_flipped(bits: u32) -> u32 {
    if bits >= SIGN_BIT {
        (bits - SIGN_BIT) as u32
    } else {
        (bits + SIGN_BIT) as u32
    }
}

impl Scalar {
    /// The value with the given bit pattern.
    pub fn from_bits(bits: u32) -> (s: Scalar)
        ensures
            s.bits == bits,
    {
        Scalar { bits }
    }

    /// The bit pattern of the value.
    pub fn to_bits(self) -> (bits: u32)
        ensures
            bits == self.bits,
    {
        self.bits
    }

    /// Positive zero.
    pub fn zero() -> (s: Scalar)
        ensures
            s == Scalar::zero_spec(),
    {
        Scalar { bits: 0 }
    }

    /// The value `1.0`.
    pub fn one() -> (s: Scalar)
        ensures
            s == Scalar::one_spec(),
    {
        Scalar { bits: ONE_BITS }
    }

    pub open spec fn zero_spec() -> Scalar {
        Scalar { bits: 0 }
    }

    pub open spec fn one_spec() -> Scalar {
        Scalar { bits: ONE_BITS }
    }

    /// The negated value: negation of a binary32 value flips its sign bit,
    /// whatever the value is.
    pub open spec fn negated_spec(self) -> Scalar {
        Scalar { bits: sign_flipped(self.bits) }
    }

    /// The negated value.
    pub fn negated(self) -> (s: Scalar)
        ensures
            s == self.negated_spec(),
    {
        let bits: u32 = self.bits;
        let flipped: u32 = bits ^ SIGN_BIT;
        assert(flipped == sign_flipped(bits)) by {
            assert(bits >= 0x8000_0000u32 ==> bits ^ 0x8000_0000u32 == (bits - 0x8000_0000u32) as u32)
                by (bit_vector);
            assert(bits < 0x8000_0000u32 ==> bits ^ 0x8000_0000u32 == (bits + 0x8000_0000u32) as u32)
                by (bit_vector);
        }
        Scalar { bits: flipped }
    }
}

/// Negating twice gives the value back.
pub proof fn lemma_negated_twice(s: Scalar)
    ensures
        s.negated_spec().negated_spec() == s,
{
}

} // verus!
