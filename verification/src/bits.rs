//! Bit patterns of the few real numbers the pass needs.
//!
//! Positions and colour channels reach the device as IEEE 754 binary32 values.
//! The library carries each as the 32-bit word that encodes it, so that what is
//! uploaded can be stated exactly.

use vstd::prelude::*;

verus! {

/// The binary32 encoding of zero.
pub const ZERO_BITS: u32 = 0x0000_0000;

/// The binary32 encoding of one: sign 0, biased exponent 127, fraction 0.
pub const ONE_BITS: u32 = 0x3F80_0000;

/// The binary32 encoding of minus one: that of one with the sign bit set.
pub const NEG_ONE_BITS: u32 = 0xBF80_0000;

} // verus!
