//! Stand-ins for floating-point readings.
//!
//! Verified code never computes with floating-point values; it only carries
//! them. A reading is held as its IEEE-754 bit pattern, which the caller
//! obtains from and turns back into the native value without loss.

use vstd::prelude::*;

verus! {

/// A single-precision reading, held as its IEEE-754 bit pattern.
#[derive(Clone, Copy, Debug, PartialEq, Eq, Structural)]
pub struct F32Bits {
    pub bits: u32,
}

/// A double-precision reading, held as its IEEE-754 bit pattern.
#[derive(Clone, Copy, Debug, PartialEq, Eq, Structural)]
pub struct F64Bits {
    pub bits: u64,
}

impl F32Bits {
    /// Whether this is positive zero, the value a defaulted reading takes.
    pub open spec fn is_zero(self) -> bool {
        self.bits == 0
    }

    /// Wraps a bit pattern.
    pub fn from_bits(bits: u32) -> (r: Self)
        ensures
            r.bits == bits,
    {
        F32Bits { bits }
    }

    /// Positive zero.
    pub fn zero() -> (r: Self)
        ensures
            r.bits == 0,
            r.is_zero(),
    {
        F32Bits { bits: 0 }
    }
}

impl F64Bits {
    /// Whether this is positive zero, the value a defaulted reading takes.
    pub open spec fn is_zero(self) -> bool {
        self.bits == 0
    }

    /// Wraps a bit pattern.
    pub fn from_bits(bits: u64) -> (r: Self)
        ensures
            r.bits == bits,
    {
        F64Bits { bits }
    }

    /// Positive zero.
    pub fn zero() -> (r: Self)
        ensures
            r.bits == 0,
            r.is_zero(),
    {
        F64Bits { bits: 0 }
    }
}

} // verus!
