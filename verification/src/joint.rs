//! From a rapier joint to an nphysics constraint.

use crate::geometry::Dimension;
use crate::handle::TargetHandle;
use crate::scene::JointParams;
use crate::target::BodyPartHandle;
use crate::target::Constraint;
use crate::target::TargetJoint;
use vstd::prelude::*;

verus! {

/// The constraint that stands for a joint of the given parameters. Anchors
/// and axes are taken over as they are. A ball joint becomes a ball
/// constraint in space and a revolute constraint in the plane, which has no
/// other rotation to leave free. A prismatic joint slides along its first
/// axis, and gets its two offsets set exactly where its limits are enabled.
pub open spec fn converted_constraint(dimension: Dimension, params: JointParams) -> Constraint {
    match params {
        JointParams::Fixed { local_anchor1, local_anchor2 } => Constraint::Fixed {
            anchor1: local_anchor1,
            anchor2: local_anchor2,
        },
        JointParams::Ball { local_anchor1, local_anchor2 } => if dimension == Dimension::Three {
            Constraint::Ball { anchor1: local_anchor1, anchor2: local_anchor2 }
        } else {
            Constraint::PlanarRevolute { anchor1: local_anchor1, anchor2: local_anchor2 }
        },
        JointParams::Revolute { local_anchor1, local_axis1, local_anchor2, local_axis2 } => {
            Constraint::Revolute {
                anchor1: local_anchor1,
                axis1: local_axis1,
                anchor2: local_anchor2,
                axis2: local_axis2,
            }
        },
        JointParams::Prismatic {
            local_anchor1,
            local_axis1,
            local_anchor2,
            limits_enabled,
            limits_min,
            limits_max,
        } => Constraint::Prismatic {
            anchor1: local_anchor1,
            axis1: local_axis1,
            anchor2: local_anchor2,
            min_offset: if limits_enabled {
                Some(limits_min)
            } else {
                None
            },
            max_offset: if limits_enabled {
                Some(limits_max)
            } else {
                None
            },
        },
    }
}

/// The single part of a rigid body of the target.
pub open spec fn spec_whole_body(body: TargetHandle) -> BodyPartHandle {
    BodyPartHandle { body, part: 0 }
}

/// The single part of a rigid body of the target.
#[verifier::when_used_as_spec(spec_whole_body)]
pub fn whole_body(body: TargetHandle) -> (part: BodyPartHandle)
    ensures
        part == spec_whole_body(body),
{
    BodyPartHandle { body, part: 0 }
}

/// The target joint between two target bodies that stands for a source joint
/// of the given parameters.
pub open spec fn converted_joint(
    dimension: Dimension,
    params: JointParams,
    body1: TargetHandle,
    body2: TargetHandle,
) -> TargetJoint {
    TargetJoint {
        part1: spec_whole_body(body1),
        part2: spec_whole_body(body2),
        constraint: converted_constraint(dimension, params),
    }
}

/// Converts a joint between two bodies that the target already holds.
pub fn convert_joint(
    dimension: Dimension,
    params: &JointParams,
    body1: TargetHandle,
    body2: TargetHandle,
) -> (joint: TargetJoint)
    requires
        params.exists_in(dimension),
    ensures
        joint == converted_joint(dimension, *params, body1, body2),
{
    let constraint = match *params {
        JointParams::Fixed { local_anchor1, local_anchor2 } => Constraint::Fixed {
            anchor1: local_anchor1,
            anchor2: local_anchor2,
        },
        JointParams::Ball { local_anchor1, local_anchor2 } => match dimension {
            Dimension::Three => Constraint::Ball { anchor1: local_anchor1, anchor2: local_anchor2 },
            Dimension::Two => Constraint::PlanarRevolute {
                anchor1: local_anchor1,
                anchor2: local_anchor2,
            },
        },
        JointParams::Revolute { local_anchor1, local_axis1, local_anchor2, local_axis2 } => {
            Constraint::Revolute {
                anchor1: local_anchor1,
                axis1: local_axis1,
                anchor2: local_anchor2,
                axis2: local_axis2,
            }
        },
        JointParams::Prismatic {
            local_anchor1,
            local_axis1,
            local_anchor2,
            limits_enabled,
            limits_min,
            limits_max,
        } => {
            let mut min_offset = None;
            let mut max_offset = None;
            if limits_enabled {
                min_offset = Some(limits_min);
                max_offset = Some(limits_max);
            }
            Constraint::Prismatic {
                anchor1: local_anchor1,
                axis1: local_axis1,
                anchor2: local_anchor2,
                min_offset,
                max_offset,
            }
        },
    };
    TargetJoint { part1: whole_body(body1), part2: whole_body(body2), constraint }
}

/// A prismatic joint gives a prismatic constraint whose offsets are the two
/// limits where the limits are enabled, and are not set where they are not.
pub proof fn lemma_limits_applied(dimension: Dimension, params: JointParams)
    requires
        params is Prismatic,
    ensures
        converted_constraint(dimension, params) is Prismatic,
        params->limits_enabled ==> converted_constraint(dimension, params)->min_offset == Some(
            params->limits_min,
        ) && converted_constraint(dimension, params)->max_offset == Some(params->limits_max),
        !params->limits_enabled ==> converted_constraint(dimension, params)->min_offset is None
            && converted_constraint(dimension, params)->max_offset is None,
{
}

} // verus!
