//! Single-precision numbers and small vectors of them, carried by bit pattern.

use vstd::prelude::*;

verus! {

/// Bit pattern of `0.0`.
pub const ZERO_BITS: u32 = 0x0000_0000;

/// Bit pattern of `1.0`.
pub const ONE_BITS: u32 = 0x3F80_0000;

/// Bit pattern of `0.5`.
pub const HALF_BITS: u32 = 0x3F00_0000;

/// Bit pattern of `0.25`.
pub const QUARTER_BITS: u32 = 0x3E80_0000;

/// Bit pattern of the single-precision number nearest to `0.1`.
pub const TENTH_BITS: u32 = 0x3DCC_CCCD;

/// Bit pattern of the single-precision number nearest to `0.2`.
pub const FIFTH_BITS: u32 = 0x3E4C_CCCD;

/// Bit pattern of `10.0`.
pub const TEN_BITS: u32 = 0x4120_0000;

/// Bit pattern of `512.0`.
pub const POS_512_BITS: u32 = 0x4400_0000;

/// Bit pattern of `-512.0`.
pub const NEG_512_BITS: u32 = 0xC400_0000;

/// A single-precision number, held as its IEEE 754 bit pattern.
///
/// The library only stores and copies such numbers, so the bit pattern is all
/// it needs; a caller converts at its edge.
#[derive(Clone, Copy, Debug, PartialEq, Eq, Structural)]
pub struct Scalar {
    pub bits: u32,
}

impl Scalar {
    /// The number with the given bit pattern.
    pub fn from_bits(bits: u32) -> (s: Scalar)
        ensures
            s.bits == bits,
    {
        Scalar { bits }
    }

    /// The bit pattern of the number.
    pub fn to_bits(self) -> (bits: u32)
        ensures
            bits == self.bits,
    {
        self.bits
    }
}

impl Default for Scalar {
    /// Zero.
    fn default() -> (s: Scalar)
        ensures
            s.bits == ZERO_BITS,
    {
        Scalar { bits: ZERO_BITS }
    }
}

/// Three numbers: a point or a direction.
#[derive(Clone, Copy, Debug, PartialEq, Eq, Structural)]
pub struct Vec3 {
    pub x: Scalar,
    pub y: Scalar,
    pub z: Scalar,
}

impl Vec3 {
    /// The vector with the given components.
    pub fn new(x: Scalar, y: Scalar, z: Scalar) -> (v: Vec3)
        ensures
            v == (Vec3 { x, y, z }),
    {
        Vec3 { x, y, z }
    }
}

impl Default for Vec3 {
    /// The zero vector.
    fn default() -> (v: Vec3)
        ensures
            v.x.bits == ZERO_BITS,
            v.y.bits == ZERO_BITS,
            v.z.bits == ZERO_BITS,
    {
        Vec3 {
            x: Scalar { bits: ZERO_BITS },
            y: Scalar { bits: ZERO_BITS },
            z: Scalar { bits: ZERO_BITS },
        }
    }
}

/// Four numbers: a colour with alpha, or a homogeneous point.
#[derive(Clone, Copy, Debug, PartialEq, Eq, Structural)]
pub struct Vec4 {
    pub x: Scalar,
    pub y: Scalar,
    pub z: Scalar,
    pub w: Scalar,
}

impl Vec4 {
    /// The vector with the given components.
    pub fn new(x: Scalar, y: Scalar, z: Scalar, w: Scalar) -> (v: Vec4)
        ensures
            v == (Vec4 { x, y, z, w }),
    {
        Vec4 { x, y, z, w }
    }
}

} // verus!
