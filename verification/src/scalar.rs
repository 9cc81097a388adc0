//! Real-valued payloads, carried as their binary64 bit pattern.
use vstd::prelude::*;

verus! {

/// A real number as the native layer reported it: the 64 bits of its IEEE 754
/// double-precision encoding. Two values are equal when their bits are, so
/// positive and negative zero differ and a NaN equals itself.
#[derive(Clone, Copy, Debug, PartialEq, Eq, Hash, Structural)]
pub struct Real {
    pub bits: u64,
}

impl Real {
    /// The value with the given encoding.
    pub fn from_bits(bits: u64) -> (r: Real)
        ensures
            r.bits == bits,
    {
        Real { bits }
    }

    /// The encoding of this value.
    pub fn to_bits(&self) -> (bits: u64)
        ensures
            bits == self.bits,
    {
        self.bits
    }

    /// Positive zero, whose encoding is all zero bits.
    pub fn zero() -> (r: Real)
        ensures
            r.bits == 0,
    {
        Real { bits: 0 }
    }
}

} // verus!
