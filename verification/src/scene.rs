//! The source scene, as plain values.
//!
//! What the bridge reads of a rapier scene: bodies with their pose and
//! status, colliders with their shape and their place on a body, and joints
//! with their two bodies and their parameters.

use crate::geometry::Dimension;
use crate::geometry::Pose;
use crate::geometry::Scalar;
use crate::geometry::Vector;
use crate::handle::BodyHandle;
use crate::handle::ColliderHandle;
use crate::handle_map::HandleMap;
use vstd::prelude::*;

verus! {

/// How a body takes part in the simulation.
#[derive(Clone, Copy, Debug, PartialEq, Eq, Structural)]
pub enum BodyStatus {
    /// Moved by forces and contacts.
    Dynamic,
    /// Never moves.
    Static,
    /// Moved by the user only.
    Kinematic,
}

impl BodyStatus {
    /// Whether forces move the body.
    pub open spec fn spec_is_dynamic(self) -> bool {
        self == BodyStatus::Dynamic
    }

    /// Whether forces move the body.
    #[verifier::when_used_as_spec(spec_is_dynamic)]
    pub fn is_dynamic(self) -> (b: bool)
        ensures
            b == self.spec_is_dynamic(),
    {
        match self {
            BodyStatus::Dynamic => true,
            BodyStatus::Static => false,
            BodyStatus::Kinematic => false,
        }
    }
}

/// A body of the source scene.
pub struct SourceBody {
    /// The pose of the body in the world.
    pub position: Pose,
    /// How the body takes part in the simulation.
    pub status: BodyStatus,
    /// The colliders attached to the body.
    pub colliders: Vec<ColliderHandle>,
}

/// The shape of a source collider.
#[derive(Clone, Copy, Debug, PartialEq, Eq, Structural)]
pub enum SourceShape {
    /// A ball of the given radius.
    Ball { radius: Scalar },
    /// A box of the given half-extents.
    Cuboid { half_extents: Vector },
    /// A capsule around a segment. `alignment` is the transform that carries
    /// the vertical axis through the origin onto the segment.
    Capsule { half_height: Scalar, radius: Scalar, alignment: Pose },
    /// A heightfield; its cells stay with the caller.
    HeightField,
    /// A triangle mesh; its buffers stay with the caller.
    Trimesh,
    /// A convex polygon.
    Polygon,
    /// A segment.
    Segment,
    /// A single triangle.
    Triangle,
    /// A cylinder.
    Cylinder,
    /// A cone.
    Cone,
    /// A cylinder with rounded edges.
    RoundCylinder,
}

/// A collider of the source scene.
#[derive(Clone, Copy, Debug, PartialEq, Eq, Structural)]
pub struct SourceCollider {
    /// The body that carries the collider.
    pub parent: BodyHandle,
    /// The shape of the collider.
    pub shape: SourceShape,
    /// The pose of the collider relative to its parent.
    pub position_wrt_parent: Pose,
    /// The density of the collider.
    pub density: Scalar,
    /// Whether the collider only detects contacts.
    pub sensor: bool,
}

/// The parameters of a source joint, by kind.
#[derive(Clone, Copy, Debug, PartialEq, Eq, Structural)]
#[allow(inconsistent_fields)]
pub enum JointParams {
    /// Removes every relative degree of freedom.
    Fixed { local_anchor1: Pose, local_anchor2: Pose },
    /// Removes the relative translations.
    Ball { local_anchor1: Vector, local_anchor2: Vector },
    /// Leaves one rotation free. Exists in space only.
    Revolute { local_anchor1: Vector, local_axis1: Vector, local_anchor2: Vector, local_axis2: Vector },
    /// Leaves one translation free, within `limits` where they are enabled.
    Prismatic {
        local_anchor1: Vector,
        local_axis1: Vector,
        local_anchor2: Vector,
        limits_enabled: bool,
        limits_min: Scalar,
        limits_max: Scalar,
    },
}

impl JointParams {
    /// Whether the source engine has this kind of joint in the given
    /// dimension: all of them in space, all but the hinge in the plane.
    pub open spec fn spec_exists_in(self, dimension: Dimension) -> bool {
        dimension == Dimension::Three || !(self is Revolute)
    }

    /// Whether the source engine has this kind of joint in the given dimension.
    #[verifier::when_used_as_spec(spec_exists_in)]
    pub fn exists_in(self, dimension: Dimension) -> (b: bool)
        ensures
            b == self.spec_exists_in(dimension),
    {
        match dimension {
            Dimension::Three => true,
            Dimension::Two => match self {
                JointParams::Revolute { .. } => false,
                _ => true,
            },
        }
    }
}

/// A joint of the source scene.
#[derive(Clone, Copy, Debug, PartialEq, Eq, Structural)]
pub struct SourceJoint {
    /// The first body of the joint.
    pub body1: BodyHandle,
    /// The second body of the joint.
    pub body2: BodyHandle,
    /// The kind of the joint and its parameters.
    pub params: JointParams,
}

/// The bodies of the source scene, by handle.
pub type BodySet = HandleMap<SourceBody>;

/// The colliders of the source scene, by handle.
pub type ColliderSet = HandleMap<SourceCollider>;

/// The joints of the source scene.
pub type JointSet = Vec<SourceJoint>;

} // verus!
