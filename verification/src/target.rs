//! The target scene, as plain values.
//!
//! What the bridge asks of nphysics: a body for every source body, a collider
//! for every source collider that nphysics can represent, and a constraint
//! for every source joint.

use crate::geometry::Extents;
use crate::geometry::Length;
use crate::geometry::Placement;
use crate::geometry::Pose;
use crate::geometry::Scalar;
use crate::geometry::Vector;
use crate::handle::ColliderHandle;
use crate::handle::TargetHandle;
use vstd::prelude::*;

verus! {

/// What a target body is built from: its pose, and nothing else.
#[derive(Clone, Copy, Debug, PartialEq, Eq, Structural)]
pub struct RigidBodyDesc {
    pub position: Pose,
}

/// One part of a target body. A rigid body has the single part 0.
#[derive(Clone, Copy, Debug, PartialEq, Eq, Structural)]
pub struct BodyPartHandle {
    pub body: TargetHandle,
    pub part: usize,
}

/// The shape of a target collider.
#[derive(Clone, Copy, Debug, PartialEq, Eq, Structural)]
pub enum TargetShape {
    /// A ball.
    Ball { radius: Length },
    /// A box.
    Cuboid { half_extents: Extents },
    /// A capsule along the vertical axis.
    Capsule { half_height: Length, radius: Length },
    /// A clone of the source collider's heightfield.
    HeightField,
    /// A mesh over the source collider's vertices, with its indices widened.
    TriMesh,
}

/// What a target collider is built from, but for the body that carries it.
#[derive(Clone, Copy, Debug, PartialEq, Eq, Structural)]
pub struct ColliderDesc {
    pub shape: TargetShape,
    pub position: Placement,
    pub density: Scalar,
    pub sensor: bool,
}

/// A collider of the target scene.
#[derive(Clone, Copy, Debug, PartialEq, Eq, Structural)]
pub struct TargetCollider {
    /// The source collider that this one stands for.
    pub source: ColliderHandle,
    /// The body part that carries the collider.
    pub parent: BodyPartHandle,
    /// What the collider is built from.
    pub desc: ColliderDesc,
}

/// A constraint of the target engine, by kind.
#[derive(Clone, Copy, Debug, PartialEq, Eq, Structural)]
#[allow(inconsistent_fields)]
pub enum Constraint {
    /// Holds the two anchor frames together.
    Fixed { anchor1: Pose, anchor2: Pose },
    /// Holds the two anchor points together, in space.
    Ball { anchor1: Vector, anchor2: Vector },
    /// Holds the two anchor points together, in the plane.
    PlanarRevolute { anchor1: Vector, anchor2: Vector },
    /// Holds the two anchor points together and the two axes aligned.
    Revolute { anchor1: Vector, axis1: Vector, anchor2: Vector, axis2: Vector },
    /// Lets the second anchor slide along the axis, between the offsets that
    /// are set.
    Prismatic {
        anchor1: Vector,
        axis1: Vector,
        anchor2: Vector,
        min_offset: Option<Scalar>,
        max_offset: Option<Scalar>,
    },
}

/// A constraint of the target scene between two body parts.
#[derive(Clone, Copy, Debug, PartialEq, Eq, Structural)]
pub struct TargetJoint {
    pub part1: BodyPartHandle,
    pub part2: BodyPartHandle,
    pub constraint: Constraint,
}

} // verus!
