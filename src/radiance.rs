//! Scrubbing undefined values out of a radiance sample before it reaches a
//! pixel.
//!
//! A channel is held as the bit pattern of an IEEE-754 binary32 number, so
//! that the test for "not a number" is exact: every exponent bit set and a
//! fraction that is not zero.

use vstd::prelude::*;

verus! {

/// The exponent field of a binary32 bit pattern.
pub const EXPONENT_BITS: u32 = 0x7f80_0000;

/// The fraction field of a binary32 bit pattern.
pub const FRACTION_BITS: u32 = 0x007f_ffff;

/// The bit pattern of positive zero.
pub const ZERO_BITS: u32 = 0;

/// `bits` encodes a NaN: all exponent bits set, fraction not zero.
pub open spec fn nan_bits(bits: u32) -> bool {
    bits & EXPONENT_BITS == EXPONENT_BITS && bits & FRACTION_BITS != 0
}

/// What one channel becomes once scrubbed: zero in place of a NaN, else itself.
pub open spec fn scrubbed(bits: u32) -> u32 {
    if nan_bits(bits) {
        ZERO_BITS
    } else {
        bits
    }
}

/// Whether the binary32 number with bit pattern `bits` is a NaN.
pub fn is_nan(bits: u32) -> (r: bool)
    ensures
        r == nan_bits(bits),
{
    bits & EXPONENT_BITS == EXPONENT_BITS && bits & FRACTION_BITS != 0
}

/// Replaces every NaN channel of a color by positive zero and keeps the
/// others bit for bit.
pub fn de_nan(color: &[u32; 3]) -> (r: [u32; 3])
    ensures
        forall|i: int| 0 <= i < 3 ==> r[i] == scrubbed(color[i]),
        forall|i: int| 0 <= i < 3 ==> !nan_bits(#[trigger] r[i]),
        forall|i: int| 0 <= i < 3 && nan_bits(color[i]) ==> r[i] == ZERO_BITS,
        forall|i: int| 0 <= i < 3 && !nan_bits(color[i]) ==> r[i] == color[i],
{
    assert(!nan_bits(ZERO_BITS)) by (bit_vector);
    let mut correction: [u32; 3] = [color[0], color[1], color[2]];
    let mut i: usize = 0;
    while i < 3
        invariant
            0 <= i <= 3,
            forall|j: int| 0 <= j < i ==> correction[j] == scrubbed(color[j]),
            forall|j: int| i <= j < 3 ==> correction[j] == color[j],
        decreases 3 - i,
    {
        if is_nan(correction[i]) {
            correction.set(i, ZERO_BITS);
        }
        i = i + 1;
    }
    correction
}

} // verus!
