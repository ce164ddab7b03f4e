//! Real-valued settings held by their IEEE-754 encodings.
//!
//! A configuration value that is a double (`f64`) or a single (`f32`) in the
//! settings files is held here by its bit pattern. Comparisons are decided on
//! the encoding: for every two encodings that are not NaN, the IEEE order of
//! the values they encode is the order of `order_key` (sign and magnitude,
//! with both zeros at key 0), and every comparison with a NaN is false.

use vstd::prelude::*;

verus! {

/// Mask of the exponent and fraction bits of a double.
pub const F64_MAGNITUDE_MASK: u64 = 0x7fff_ffff_ffff_ffff;

/// Mask of the fraction bits of a double.
pub const F64_FRACTION_MASK: u64 = 0x000f_ffff_ffff_ffff;

/// Encodings of the double-precision constants that the settings use.
pub const F64_HALF: u64 = 0x3fe0_0000_0000_0000;
pub const F64_1: u64 = 0x3ff0_0000_0000_0000;
pub const F64_2: u64 = 0x4000_0000_0000_0000;
pub const F64_5: u64 = 0x4014_0000_0000_0000;
pub const F64_10: u64 = 0x4024_0000_0000_0000;
pub const F64_15: u64 = 0x402e_0000_0000_0000;
pub const F64_20: u64 = 0x4034_0000_0000_0000;
pub const F64_25: u64 = 0x4039_0000_0000_0000;
pub const F64_60: u64 = 0x404e_0000_0000_0000;
pub const F64_100: u64 = 0x4059_0000_0000_0000;
pub const F64_150: u64 = 0x4062_c000_0000_0000;
pub const F64_200: u64 = 0x4069_0000_0000_0000;
pub const F64_300: u64 = 0x4072_c000_0000_0000;
pub const F64_8000: u64 = 0x40bf_4000_0000_0000;

/// Encodings of the single-precision constants that the detector settings use.
pub const F32_0_1: u32 = 0x3dcc_cccd;
pub const F32_HALF: u32 = 0x3f00_0000;
pub const F32_0_6: u32 = 0x3f19_999a;
pub const F32_0_8: u32 = 0x3f4c_cccd;
pub const F32_0_87: u32 = 0x3f5e_b852;
pub const F32_10: u32 = 0x4120_0000;
pub const F32_15: u32 = 0x4170_0000;
pub const F32_25: u32 = 0x41c8_0000;
pub const F32_50: u32 = 0x4248_0000;
pub const F32_100: u32 = 0x42c8_0000;
pub const F32_200: u32 = 0x4348_0000;
pub const F32_5000: u32 = 0x459c_4000;
pub const F32_8000: u32 = 0x45fa_0000;

/// A double-precision value held by its IEEE-754 binary64 encoding.
#[derive(Clone, Copy, Debug, PartialEq, Eq, Structural)]
pub struct F64Bits {
    pub bits: u64,
}

/// A single-precision value held by its IEEE-754 binary32 encoding.
#[derive(Clone, Copy, Debug, PartialEq, Eq, Structural)]
pub struct F32Bits {
    pub bits: u32,
}

impl F64Bits {
    /// The encoding is a NaN: all exponent bits set and a nonzero fraction.
    pub open spec fn spec_is_nan(self) -> bool {
        (self.bits >> 52u64) & 0x7ffu64 == 0x7ffu64 && self.bits & F64_FRACTION_MASK != 0
    }

    /// The sign bit is set.
    pub open spec fn sign_bit(self) -> bool {
        self.bits >> 63u64 == 1u64
    }

    /// Exponent and fraction bits, read as an unsigned number.
    pub open spec fn magnitude(self) -> u64 {
        self.bits & F64_MAGNITUDE_MASK
    }

    /// Position of the encoded value in the order of the reals (for non-NaN encodings).
    pub open spec fn order_key(self) -> int {
        if self.sign_bit() {
            -(self.magnitude() as int)
        } else {
            self.magnitude() as int
        }
    }

    /// `self < other` as IEEE-754 decides it.
    pub open spec fn spec_lt(self, other: F64Bits) -> bool {
        !self.spec_is_nan() && !other.spec_is_nan() && self.order_key() < other.order_key()
    }

    /// `self <= other` as IEEE-754 decides it.
    pub open spec fn spec_le(self, other: F64Bits) -> bool {
        !self.spec_is_nan() && !other.spec_is_nan() && self.order_key() <= other.order_key()
    }

    /// Wraps an encoding.
    pub fn from_bits(bits: u64) -> (r: F64Bits)
        ensures
            r.bits == bits,
    {
        F64Bits { bits }
    }

    /// The encoding of `+0.0`.
    pub fn zero() -> (r: F64Bits)
        ensures
            r.bits == 0,
            !r.spec_is_nan(),
            r.order_key() == 0,
    {
        assert((0u64 >> 52u64) & 0x7ffu64 == 0u64 && 0u64 & F64_FRACTION_MASK == 0u64
            && 0u64 >> 63u64 == 0u64 && 0u64 & F64_MAGNITUDE_MASK == 0u64) by (bit_vector);
        F64Bits { bits: 0 }
    }

    /// Whether the encoding is a NaN.
    pub fn is_nan(&self) -> (r: bool)
        ensures
            r == self.spec_is_nan(),
    {
        (self.bits >> 52u64) & 0x7ffu64 == 0x7ffu64 && self.bits & F64_FRACTION_MASK != 0
    }

    /// The order key of the encoding, computed.
    pub fn key(&self) -> (r: i128)
        ensures
            r == self.order_key(),
    {
        let magnitude = self.bits & F64_MAGNITUDE_MASK;
        if self.bits >> 63u64 == 1u64 {
            -(magnitude as i128)
        } else {
            magnitude as i128
        }
    }

    /// `self < other`, with IEEE-754 semantics.
    pub fn less_than(&self, other: &F64Bits) -> (r: bool)
        ensures
            r == self.spec_lt(*other),
    {
        !self.is_nan() && !other.is_nan() && self.key() < other.key()
    }

    /// `self <= other`, with IEEE-754 semantics.
    pub fn at_most(&self, other: &F64Bits) -> (r: bool)
        ensures
            r == self.spec_le(*other),
    {
        !self.is_nan() && !other.is_nan() && self.key() <= other.key()
    }

    /// The encoding of `-self`: the same value with the sign bit flipped.
    pub fn negated(&self) -> (r: F64Bits)
        ensures
            r.bits == self.bits ^ 0x8000_0000_0000_0000u64,
    {
        F64Bits { bits: self.bits ^ 0x8000_0000_0000_0000u64 }
    }
}

impl F32Bits {
    /// Wraps an encoding.
    pub fn from_bits(bits: u32) -> (r: F32Bits)
        ensures
            r.bits == bits,
    {
        F32Bits { bits }
    }
}


/// The double-precision constants of the settings are positive numbers: not
/// NaN, sign bit clear, and ordered by their encodings; `+0.0` has key 0.
pub proof fn lemma_constant_encodings()
    ensures
        !(F64Bits { bits: 0 }).spec_is_nan(),
        (F64Bits { bits: 0 }).order_key() == 0,
        !(F64Bits { bits: F64_HALF }).spec_is_nan(),
        (F64Bits { bits: F64_HALF }).order_key() == F64_HALF as int,
        !(F64Bits { bits: F64_1 }).spec_is_nan(),
        (F64Bits { bits: F64_1 }).order_key() == F64_1 as int,
        !(F64Bits { bits: F64_2 }).spec_is_nan(),
        (F64Bits { bits: F64_2 }).order_key() == F64_2 as int,
        !(F64Bits { bits: F64_5 }).spec_is_nan(),
        (F64Bits { bits: F64_5 }).order_key() == F64_5 as int,
        !(F64Bits { bits: F64_10 }).spec_is_nan(),
        (F64Bits { bits: F64_10 }).order_key() == F64_10 as int,
        !(F64Bits { bits: F64_15 }).spec_is_nan(),
        (F64Bits { bits: F64_15 }).order_key() == F64_15 as int,
        !(F64Bits { bits: F64_20 }).spec_is_nan(),
        (F64Bits { bits: F64_20 }).order_key() == F64_20 as int,
        !(F64Bits { bits: F64_25 }).spec_is_nan(),
        (F64Bits { bits: F64_25 }).order_key() == F64_25 as int,
        !(F64Bits { bits: F64_60 }).spec_is_nan(),
        (F64Bits { bits: F64_60 }).order_key() == F64_60 as int,
        !(F64Bits { bits: F64_100 }).spec_is_nan(),
        (F64Bits { bits: F64_100 }).order_key() == F64_100 as int,
        !(F64Bits { bits: F64_150 }).spec_is_nan(),
        (F64Bits { bits: F64_150 }).order_key() == F64_150 as int,
        !(F64Bits { bits: F64_200 }).spec_is_nan(),
        (F64Bits { bits: F64_200 }).order_key() == F64_200 as int,
        !(F64Bits { bits: F64_300 }).spec_is_nan(),
        (F64Bits { bits: F64_300 }).order_key() == F64_300 as int,
        !(F64Bits { bits: F64_8000 }).spec_is_nan(),
        (F64Bits { bits: F64_8000 }).order_key() == F64_8000 as int,
{
    assert((0u64 >> 52u64) & 0x7ffu64 == 0u64 && 0u64 >> 63u64 == 0u64
        && 0u64 & 0x7fff_ffff_ffff_ffffu64 == 0u64) by (bit_vector);
    assert((0x3fe0_0000_0000_0000u64 >> 52u64) & 0x7ffu64 != 0x7ffu64 && 0x3fe0_0000_0000_0000u64 >> 63u64 == 0u64
        && 0x3fe0_0000_0000_0000u64 & 0x7fff_ffff_ffff_ffffu64 == 0x3fe0_0000_0000_0000u64) by (bit_vector);
    assert((0x3ff0_0000_0000_0000u64 >> 52u64) & 0x7ffu64 != 0x7ffu64 && 0x3ff0_0000_0000_0000u64 >> 63u64 == 0u64
        && 0x3ff0_0000_0000_0000u64 & 0x7fff_ffff_ffff_ffffu64 == 0x3ff0_0000_0000_0000u64) by (bit_vector);
    assert((0x4000_0000_0000_0000u64 >> 52u64) & 0x7ffu64 != 0x7ffu64 && 0x4000_0000_0000_0000u64 >> 63u64 == 0u64
        && 0x4000_0000_0000_0000u64 & 0x7fff_ffff_ffff_ffffu64 == 0x4000_0000_0000_0000u64) by (bit_vector);
    assert((0x4014_0000_0000_0000u64 >> 52u64) & 0x7ffu64 != 0x7ffu64 && 0x4014_0000_0000_0000u64 >> 63u64 == 0u64
        && 0x4014_0000_0000_0000u64 & 0x7fff_ffff_ffff_ffffu64 == 0x4014_0000_0000_0000u64) by (bit_vector);
    assert((0x4024_0000_0000_0000u64 >> 52u64) & 0x7ffu64 != 0x7ffu64 && 0x4024_0000_0000_0000u64 >> 63u64 == 0u64
        && 0x4024_0000_0000_0000u64 & 0x7fff_ffff_ffff_ffffu64 == 0x4024_0000_0000_0000u64) by (bit_vector);
    assert((0x402e_0000_0000_0000u64 >> 52u64) & 0x7ffu64 != 0x7ffu64 && 0x402e_0000_0000_0000u64 >> 63u64 == 0u64
        && 0x402e_0000_0000_0000u64 & 0x7fff_ffff_ffff_ffffu64 == 0x402e_0000_0000_0000u64) by (bit_vector);
    assert((0x4034_0000_0000_0000u64 >> 52u64) & 0x7ffu64 != 0x7ffu64 && 0x4034_0000_0000_0000u64 >> 63u64 == 0u64
        && 0x4034_0000_0000_0000u64 & 0x7fff_ffff_ffff_ffffu64 == 0x4034_0000_0000_0000u64) by (bit_vector);
    assert((0x4039_0000_0000_0000u64 >> 52u64) & 0x7ffu64 != 0x7ffu64 && 0x4039_0000_0000_0000u64 >> 63u64 == 0u64
        && 0x4039_0000_0000_0000u64 & 0x7fff_ffff_ffff_ffffu64 == 0x4039_0000_0000_0000u64) by (bit_vector);
    assert((0x404e_0000_0000_0000u64 >> 52u64) & 0x7ffu64 != 0x7ffu64 && 0x404e_0000_0000_0000u64 >> 63u64 == 0u64
        && 0x404e_0000_0000_0000u64 & 0x7fff_ffff_ffff_ffffu64 == 0x404e_0000_0000_0000u64) by (bit_vector);
    assert((0x4059_0000_0000_0000u64 >> 52u64) & 0x7ffu64 != 0x7ffu64 && 0x4059_0000_0000_0000u64 >> 63u64 == 0u64
        && 0x4059_0000_0000_0000u64 & 0x7fff_ffff_ffff_ffffu64 == 0x4059_0000_0000_0000u64) by (bit_vector);
    assert((0x4062_c000_0000_0000u64 >> 52u64) & 0x7ffu64 != 0x7ffu64 && 0x4062_c000_0000_0000u64 >> 63u64 == 0u64
        && 0x4062_c000_0000_0000u64 & 0x7fff_ffff_ffff_ffffu64 == 0x4062_c000_0000_0000u64) by (bit_vector);
    assert((0x4069_0000_0000_0000u64 >> 52u64) & 0x7ffu64 != 0x7ffu64 && 0x4069_0000_0000_0000u64 >> 63u64 == 0u64
        && 0x4069_0000_0000_0000u64 & 0x7fff_ffff_ffff_ffffu64 == 0x4069_0000_0000_0000u64) by (bit_vector);
    assert((0x4072_c000_0000_0000u64 >> 52u64) & 0x7ffu64 != 0x7ffu64 && 0x4072_c000_0000_0000u64 >> 63u64 == 0u64
        && 0x4072_c000_0000_0000u64 & 0x7fff_ffff_ffff_ffffu64 == 0x4072_c000_0000_0000u64) by (bit_vector);
    assert((0x40bf_4000_0000_0000u64 >> 52u64) & 0x7ffu64 != 0x7ffu64 && 0x40bf_4000_0000_0000u64 >> 63u64 == 0u64
        && 0x40bf_4000_0000_0000u64 & 0x7fff_ffff_ffff_ffffu64 == 0x40bf_4000_0000_0000u64) by (bit_vector);
}

/// Flipping the sign bit gives the same magnitude with the other sign,
/// which is the negated value.
pub proof fn lemma_sign_flip(x: F64Bits)
    ensures
        (F64Bits { bits: x.bits ^ 0x8000_0000_0000_0000u64 }).magnitude() == x.magnitude(),
        (F64Bits { bits: x.bits ^ 0x8000_0000_0000_0000u64 }).sign_bit() != x.sign_bit(),
{
    let b = x.bits;
    assert((b ^ 0x8000_0000_0000_0000u64) & 0x7fff_ffff_ffff_ffffu64 == b & 0x7fff_ffff_ffff_ffffu64) by (bit_vector);
    assert(((b ^ 0x8000_0000_0000_0000u64) >> 63u64 == 1u64) != (b >> 63u64 == 1u64)) by (bit_vector);
}

} // verus!
