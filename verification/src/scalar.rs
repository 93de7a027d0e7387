//! Real numbers as bit patterns.
//!
//! A robot description is full of real numbers: lengths, angles, masses,
//! colour channels. This library never does arithmetic on them. It copies
//! them from one record to another, compares them for identity and supplies a
//! handful of fixed values. A [`Scalar`] therefore holds a real number as the
//! 64 bits of its IEEE 754 binary64 encoding, which makes every copy exact.

use vstd::prelude::*;

verus! {

/// Bit pattern of `0.0`.
pub const ZERO_BITS: u64 = 0x0000_0000_0000_0000;

/// Bit pattern of `1.0`.
pub const ONE_BITS: u64 = 0x3ff0_0000_0000_0000;

/// Bit pattern of `-1.0`.
pub const NEG_ONE_BITS: u64 = 0xbff0_0000_0000_0000;

/// A real number, held as the bits of its binary64 encoding.
#[derive(Clone, Copy, Debug, PartialEq, Eq, Structural)]
pub struct Scalar {
    pub bits: u64,
}

impl Scalar {
    /// The scalar with the given encoding.
    pub fn from_bits(bits: u64) -> (s: Scalar)
        ensures
            s.bits == bits,
    {
        Scalar { bits }
    }

    /// The encoding of this scalar.
    pub fn to_bits(self) -> (bits: u64)
        ensures
            bits == self.bits,
    {
        self.bits
    }

    pub open spec fn spec_zero() -> Scalar {
        Scalar { bits: ZERO_BITS }
    }

    pub open spec fn spec_one() -> Scalar {
        Scalar { bits: ONE_BITS }
    }

    pub open spec fn spec_neg_one() -> Scalar {
        Scalar { bits: NEG_ONE_BITS }
    }

    /// The scalar `0.0`.
    #[verifier::when_used_as_spec(spec_zero)]
    pub fn zero() -> (s: Scalar)
        ensures
            s == Scalar::spec_zero(),
    {
        Scalar { bits: ZERO_BITS }
    }

    /// The scalar `1.0`.
    #[verifier::when_used_as_spec(spec_one)]
    pub fn one() -> (s: Scalar)
        ensures
            s == Scalar::spec_one(),
    {
        Scalar { bits: ONE_BITS }
    }

    /// The scalar `-1.0`.
    #[verifier::when_used_as_spec(spec_neg_one)]
    pub fn neg_one() -> (s: Scalar)
        ensures
            s == Scalar::spec_neg_one(),
    {
        Scalar { bits: NEG_ONE_BITS }
    }

    /// `1.0` where `flag` holds, `0.0` where it does not.
    pub open spec fn spec_indicator(flag: bool) -> Scalar {
        if flag {
            Scalar::spec_one()
        } else {
            Scalar::spec_zero()
        }
    }

    /// `1.0` where `flag` holds, `0.0` where it does not.
    #[verifier::when_used_as_spec(spec_indicator)]
    pub fn indicator(flag: bool) -> (s: Scalar)
        ensures
            s == Scalar::spec_indicator(flag),
    {
        if flag {
            Scalar::one()
        } else {
            Scalar::zero()
        }
    }
}

/// Three scalars: a point, an offset, a size or a triple of angles.
#[derive(Clone, Copy, Debug, PartialEq, Eq, Structural)]
pub struct Vec3 {
    pub x: Scalar,
    pub y: Scalar,
    pub z: Scalar,
}

impl Vec3 {
    pub open spec fn spec_new(x: Scalar, y: Scalar, z: Scalar) -> Vec3 {
        Vec3 { x, y, z }
    }

    #[verifier::when_used_as_spec(spec_new)]
    pub fn new(x: Scalar, y: Scalar, z: Scalar) -> (v: Vec3)
        ensures
            v == Vec3::spec_new(x, y, z),
    {
        Vec3 { x, y, z }
    }

    /// The vector with the given component encodings.
    pub fn from_bits(x: u64, y: u64, z: u64) -> (v: Vec3)
        ensures
            v.x.bits == x,
            v.y.bits == y,
            v.z.bits == z,
    {
        Vec3 { x: Scalar { bits: x }, y: Scalar { bits: y }, z: Scalar { bits: z } }
    }

    pub open spec fn spec_zero() -> Vec3 {
        Vec3 { x: Scalar::spec_zero(), y: Scalar::spec_zero(), z: Scalar::spec_zero() }
    }

    pub open spec fn spec_one() -> Vec3 {
        Vec3 { x: Scalar::spec_one(), y: Scalar::spec_one(), z: Scalar::spec_one() }
    }

    /// The vector `(0, 0, 0)`.
    #[verifier::when_used_as_spec(spec_zero)]
    pub fn zero() -> (v: Vec3)
        ensures
            v == Vec3::spec_zero(),
    {
        Vec3 { x: Scalar::zero(), y: Scalar::zero(), z: Scalar::zero() }
    }

    /// The vector `(1, 1, 1)`.
    #[verifier::when_used_as_spec(spec_one)]
    pub fn one() -> (v: Vec3)
        ensures
            v == Vec3::spec_one(),
    {
        Vec3 { x: Scalar::one(), y: Scalar::one(), z: Scalar::one() }
    }
}

} // verus!
