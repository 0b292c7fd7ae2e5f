//! Plain values for the geometry that passes through the bridge.
//!
//! The bridge moves real numbers from one engine to the other without
//! computing with them. A scalar is therefore held as the bit pattern of a
//! single-precision number, and the two operations that the bridge asks for
//! but does not perform, shrinking a length by the collision margin and
//! composing two poses, are held as terms for the caller to evaluate.

use vstd::prelude::*;

verus! {

/// A single-precision number, held as its bit pattern.
#[derive(Clone, Copy, Debug, PartialEq, Eq, Structural)]
pub struct Scalar {
    pub bits: u32,
}

impl Scalar {
    /// The scalar with the given bit pattern.
    pub fn from_bits(bits: u32) -> (s: Scalar)
        ensures
            s.bits == bits,
    {
        Scalar { bits }
    }

    /// Positive zero, whose bit pattern is all zeros.
    pub fn zero() -> (s: Scalar)
        ensures
            s == Scalar::spec_zero(),
    {
        Scalar { bits: 0 }
    }

    /// Positive zero.
    pub open spec fn spec_zero() -> Scalar {
        Scalar { bits: 0 }
    }
}

/// Three scalars: a point, a direction or a set of half-extents.
#[derive(Clone, Copy, Debug, PartialEq, Eq, Structural)]
pub struct Vector {
    pub x: Scalar,
    pub y: Scalar,
    pub z: Scalar,
}

/// A rotation, as the four coefficients of a unit quaternion.
#[derive(Clone, Copy, Debug, PartialEq, Eq, Structural)]
pub struct Rotation {
    pub i: Scalar,
    pub j: Scalar,
    pub k: Scalar,
    pub w: Scalar,
}

/// A rigid transform: a rotation followed by a translation.
#[derive(Clone, Copy, Debug, PartialEq, Eq, Structural)]
pub struct Pose {
    pub translation: Vector,
    pub rotation: Rotation,
}

/// A length of a target shape.
#[derive(Clone, Copy, Debug, PartialEq, Eq, Structural)]
pub enum Length {
    /// The scalar as it stands.
    Exact(Scalar),
    /// The scalar less the target engine's collision margin.
    LessMargin(Scalar),
}

/// Three lengths, one per axis.
#[derive(Clone, Copy, Debug, PartialEq, Eq, Structural)]
pub struct Extents {
    pub x: Length,
    pub y: Length,
    pub z: Length,
}

/// A pose that the caller is to write somewhere.
#[derive(Clone, Copy, Debug, PartialEq, Eq, Structural)]
pub enum Placement {
    /// The pose as it stands.
    At(Pose),
    /// The composition of two poses: the second is applied first, then the
    /// first, as in `outer * inner`.
    Product { outer: Pose, inner: Pose },
}

/// Whether the scene lives in the plane or in space. A scene in the plane is
/// held like one in space: the third coordinate of its vectors is zero, and
/// its rotations turn about the third axis.
#[derive(Clone, Copy, Debug, PartialEq, Eq, Structural)]
pub enum Dimension {
    Two,
    Three,
}

} // verus!
