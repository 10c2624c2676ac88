//! Single-precision quantities carried by their bit patterns.
//!
//! Nothing here computes with the numbers. A coordinate enters as the 32 bits
//! of its IEEE 754 encoding and leaves as the same 32 bits, so "the same
//! coordinate" always means "the same bits": positive and negative zero are
//! two values, and a NaN is equal to itself.

use vstd::prelude::*;

verus! {

/// One single-precision number, held as the bits of its IEEE 754 encoding.
#[derive(Clone, Copy, Debug, PartialEq, Eq, Structural)]
pub struct Scalar {
    pub bits: u32,
}

impl Scalar {
    /// Positive zero: all bits clear.
    pub open spec fn spec_zero() -> Scalar {
        Scalar { bits: 0 }
    }

    /// Positive zero.
    #[verifier::when_used_as_spec(spec_zero)]
    pub fn zero() -> (s: Scalar)
        ensures
            s == Scalar::spec_zero(),
    {
        Scalar { bits: 0 }
    }

    /// Wraps an encoding without looking at it.
    pub fn from_bits(bits: u32) -> (s: Scalar)
        ensures
            s == (Scalar { bits }),
    {
        Scalar { bits }
    }

    /// The encoding that was wrapped.
    pub fn to_bits(self) -> (bits: u32)
        ensures
            bits == self.bits,
    {
        self.bits
    }
}

/// A point or direction of the plane.
#[derive(Clone, Copy, Debug, PartialEq, Eq, Structural)]
pub struct Vec2 {
    pub x: Scalar,
    pub y: Scalar,
}

/// A point or direction of space.
#[derive(Clone, Copy, Debug, PartialEq, Eq, Structural)]
pub struct Vec3 {
    pub x: Scalar,
    pub y: Scalar,
    pub z: Scalar,
}

impl Vec2 {
    /// The origin of the plane.
    pub open spec fn spec_zero() -> Vec2 {
        Vec2 { x: Scalar::spec_zero(), y: Scalar::spec_zero() }
    }

    /// The same point in space, at depth `z`.
    pub open spec fn spec_extend(self, z: Scalar) -> Vec3 {
        Vec3 { x: self.x, y: self.y, z }
    }

    /// The point with the given coordinates.
    pub fn new(x: Scalar, y: Scalar) -> (v: Vec2)
        ensures
            v == (Vec2 { x, y }),
    {
        Vec2 { x, y }
    }

    /// The origin of the plane.
    #[verifier::when_used_as_spec(spec_zero)]
    pub fn zero() -> (v: Vec2)
        ensures
            v == Vec2::spec_zero(),
    {
        Vec2 { x: Scalar::zero(), y: Scalar::zero() }
    }

    /// The same point in space, at depth `z`.
    #[verifier::when_used_as_spec(spec_extend)]
    pub fn extend(self, z: Scalar) -> (v: Vec3)
        ensures
            v == self.spec_extend(z),
            v.spec_truncate() == self,
    {
        Vec3 { x: self.x, y: self.y, z }
    }
}

impl Vec3 {
    /// The point of the plane below this one: `z` is dropped, `x` and `y` stay.
    pub open spec fn spec_truncate(self) -> Vec2 {
        Vec2 { x: self.x, y: self.y }
    }

    /// The point with the given coordinates.
    pub fn new(x: Scalar, y: Scalar, z: Scalar) -> (v: Vec3)
        ensures
            v == (Vec3 { x, y, z }),
    {
        Vec3 { x, y, z }
    }

    /// The point of the plane below this one: `z` is dropped, `x` and `y` stay.
    #[verifier::when_used_as_spec(spec_truncate)]
    pub fn truncate(self) -> (v: Vec2)
        ensures
            v == self.spec_truncate(),
    {
        Vec2 { x: self.x, y: self.y }
    }
}

/// A half-line of space, as a camera casts it through a point of its viewport.
#[derive(Clone, Copy, Debug, PartialEq, Eq, Structural)]
pub struct Ray {
    pub origin: Vec3,
    pub direction: Vec3,
}

} // verus!
