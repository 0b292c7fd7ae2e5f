//! From a rapier collider to what an nphysics collider is built from.

use crate::geometry::Dimension;
use crate::geometry::Extents;
use crate::geometry::Length;
use crate::geometry::Placement;
use crate::geometry::Scalar;
use crate::geometry::Vector;
use crate::scene::BodyStatus;
use crate::scene::SourceCollider;
use crate::scene::SourceShape;
use crate::target::ColliderDesc;
use crate::target::TargetShape;
use vstd::prelude::*;

verus! {

/// The half-extents of a box, each less the collision margin.
pub open spec fn shrunk(half_extents: Vector) -> Extents {
    Extents {
        x: Length::LessMargin(half_extents.x),
        y: Length::LessMargin(half_extents.y),
        z: Length::LessMargin(half_extents.z),
    }
}

/// Whether nphysics can represent the shape in the given dimension: boxes,
/// balls, capsules and heightfields always, triangle meshes in space only.
pub open spec fn representable(dimension: Dimension, shape: SourceShape) -> bool {
    match shape {
        SourceShape::Cuboid { .. } => true,
        SourceShape::Ball { .. } => true,
        SourceShape::Capsule { .. } => true,
        SourceShape::HeightField => true,
        SourceShape::Trimesh => dimension == Dimension::Three,
        _ => false,
    }
}

/// The target shape of a source shape, where there is one. Boxes and balls
/// lose the collision margin; a capsule keeps its half-height and radius; a
/// heightfield is cloned and a mesh rebuilt.
pub open spec fn converted_shape(dimension: Dimension, shape: SourceShape) -> Option<TargetShape> {
    match shape {
        SourceShape::Cuboid { half_extents } => Some(
            TargetShape::Cuboid { half_extents: shrunk(half_extents) },
        ),
        SourceShape::Ball { radius } => Some(TargetShape::Ball { radius: Length::LessMargin(radius) }),
        SourceShape::Capsule { half_height, radius, alignment } => Some(
            TargetShape::Capsule {
                half_height: Length::Exact(half_height),
                radius: Length::Exact(radius),
            },
        ),
        SourceShape::HeightField => Some(TargetShape::HeightField),
        SourceShape::Trimesh => if dimension == Dimension::Three {
            Some(TargetShape::TriMesh)
        } else {
            None
        },
        _ => None,
    }
}

/// The pose of the target collider relative to its body: that of the source
/// collider, which for a capsule is composed with the capsule's alignment,
/// since a target capsule always lies along the vertical axis.
pub open spec fn converted_position(collider: SourceCollider) -> Placement {
    match collider.shape {
        SourceShape::Capsule { half_height, radius, alignment } => Placement::Product {
            outer: collider.position_wrt_parent,
            inner: alignment,
        },
        _ => Placement::At(collider.position_wrt_parent),
    }
}

/// The density of the target collider: that of the source collider on a
/// dynamic body, zero on any other, which must not contribute mass.
pub open spec fn converted_density(collider: SourceCollider, is_dynamic: bool) -> Scalar {
    if is_dynamic {
        collider.density
    } else {
        Scalar::spec_zero()
    }
}

/// What the target collider of a source collider is built from, where
/// nphysics can represent its shape.
pub open spec fn collider_desc(
    dimension: Dimension,
    collider: SourceCollider,
    is_dynamic: bool,
) -> Option<ColliderDesc> {
    match converted_shape(dimension, collider.shape) {
        Some(shape) => Some(
            ColliderDesc {
                shape,
                position: converted_position(collider),
                density: converted_density(collider, is_dynamic),
                sensor: collider.sensor,
            },
        ),
        None => None,
    }
}

/// Converts a source collider whose parent body is dynamic or not. Returns
/// `None` exactly for the shapes that nphysics cannot represent.
pub fn nphysics_collider_from_rapier_collider(
    dimension: Dimension,
    collider: &SourceCollider,
    is_dynamic: bool,
) -> (desc: Option<ColliderDesc>)
    ensures
        desc == collider_desc(dimension, *collider, is_dynamic),
        desc is Some <==> representable(dimension, collider.shape),
{
    let mut position = Placement::At(collider.position_wrt_parent);
    let shape = match collider.shape {
        SourceShape::Cuboid { half_extents } => TargetShape::Cuboid {
            half_extents: Extents {
                x: Length::LessMargin(half_extents.x),
                y: Length::LessMargin(half_extents.y),
                z: Length::LessMargin(half_extents.z),
            },
        },
        SourceShape::Ball { radius } => TargetShape::Ball { radius: Length::LessMargin(radius) },
        SourceShape::Capsule { half_height, radius, alignment } => {
            position = Placement::Product { outer: collider.position_wrt_parent, inner: alignment };
            TargetShape::Capsule {
                half_height: Length::Exact(half_height),
                radius: Length::Exact(radius),
            }
        },
        SourceShape::HeightField => TargetShape::HeightField,
        SourceShape::Trimesh => match dimension {
            Dimension::Three => TargetShape::TriMesh,
            Dimension::Two => {
                return None;
            },
        },
        _ => {
            return None;
        },
    };
    let density = if is_dynamic {
        collider.density
    } else {
        Scalar::zero()
    };
    Some(ColliderDesc { shape, position, density, sensor: collider.sensor })
}

/// Every box and every ball comes out with each of its sizes less the
/// collision margin, whatever the size.
pub proof fn lemma_margin_taken_off(dimension: Dimension, collider: SourceCollider, is_dynamic: bool)
    ensures
        collider.shape matches SourceShape::Ball { radius } ==> collider_desc(
            dimension,
            collider,
            is_dynamic,
        ) matches Some(desc) && desc.shape == (TargetShape::Ball {
            radius: Length::LessMargin(radius),
        }),
        collider.shape matches SourceShape::Cuboid { half_extents } ==> collider_desc(
            dimension,
            collider,
            is_dynamic,
        ) matches Some(desc) && desc.shape == (TargetShape::Cuboid {
            half_extents: Extents {
                x: Length::LessMargin(half_extents.x),
                y: Length::LessMargin(half_extents.y),
                z: Length::LessMargin(half_extents.z),
            },
        }),
{
}

/// On a static or kinematic body every collider that is converted gets the
/// density zero, whatever its own density.
pub proof fn lemma_density_zeroed(dimension: Dimension, collider: SourceCollider, status: BodyStatus)
    requires
        status == BodyStatus::Static || status == BodyStatus::Kinematic,
    ensures
        collider_desc(dimension, collider, status.is_dynamic()) matches Some(desc)
            ==> desc.density.bits == 0,
{
}

/// The sensor flag and the density of a collider on a dynamic body pass
/// through unchanged.
pub proof fn lemma_dynamic_passes_through(dimension: Dimension, collider: SourceCollider)
    ensures
        collider_desc(dimension, collider, true) matches Some(desc) ==> desc.density
            == collider.density && desc.sensor == collider.sensor,
{
}

} // verus!
