//! What the import of a source scene yields, stated over plain maps and
//! sequences.

use crate::collider::collider_desc;
use crate::collider::representable;
use crate::geometry::Dimension;
use crate::handle::ColliderHandle;
use crate::handle::SourceHandle;
use crate::handle::TargetHandle;
use crate::joint::spec_whole_body;
use crate::joint::converted_joint;
use crate::scene::SourceBody;
use crate::scene::SourceCollider;
use crate::scene::SourceJoint;
use crate::target::RigidBodyDesc;
use crate::target::TargetCollider;
use crate::target::TargetJoint;
use vstd::prelude::*;

verus! {

/// The scene is closed: every collider sits on a body of the scene, every
/// joint links two bodies of the scene, and every joint is of a kind that
/// exists in the dimension.
pub open spec fn closed_scene(
    dimension: Dimension,
    bodies: Map<SourceHandle, SourceBody>,
    colliders: Seq<SourceCollider>,
    joints: Seq<SourceJoint>,
) -> bool {
    &&& forall|i: int|
        0 <= i < colliders.len() ==> bodies.contains_key((#[trigger] colliders[i]).parent)
    &&& forall|i: int|
        0 <= i < joints.len() ==> {
            &&& bodies.contains_key((#[trigger] joints[i]).body1)
            &&& bodies.contains_key(joints[i].body2)
            &&& joints[i].params.exists_in(dimension)
        }
}

/// What the target bodies are built from: the pose of each source body, in
/// the order of the body set.
pub open spec fn imported_bodies(bodies: Seq<SourceBody>) -> Seq<RigidBodyDesc> {
    Seq::new(bodies.len(), |i: int| RigidBodyDesc { position: bodies[i].position })
}

/// The target collider of the source collider `collider` with handle
/// `handle`, where nphysics can represent its shape: it sits on part 0 of the
/// target body of its parent, and is dense only where that parent is dynamic.
pub open spec fn imported_collider(
    dimension: Dimension,
    bodies: Map<SourceHandle, SourceBody>,
    table: Map<SourceHandle, TargetHandle>,
    handle: ColliderHandle,
    collider: SourceCollider,
) -> Option<TargetCollider> {
    match collider_desc(dimension, collider, bodies[collider.parent].status.is_dynamic()) {
        Some(desc) => Some(
            TargetCollider { source: handle, parent: spec_whole_body(table[collider.parent]), desc },
        ),
        None => None,
    }
}

/// The target colliders of a collider set: one for each source collider that
/// nphysics can represent, in the order of the set.
pub open spec fn imported_colliders(
    dimension: Dimension,
    bodies: Map<SourceHandle, SourceBody>,
    table: Map<SourceHandle, TargetHandle>,
    handles: Seq<ColliderHandle>,
    colliders: Seq<SourceCollider>,
) -> Seq<TargetCollider>
    decreases colliders.len(),
{
    if colliders.len() == 0 || handles.len() != colliders.len() {
        Seq::empty()
    } else {
        let before = imported_colliders(
            dimension,
            bodies,
            table,
            handles.drop_last(),
            colliders.drop_last(),
        );
        match imported_collider(dimension, bodies, table, handles.last(), colliders.last()) {
            Some(collider) => before.push(collider),
            None => before,
        }
    }
}

/// The handles of the source colliders that nphysics cannot represent, in the
/// order of the set. They are absent from the target scene.
pub open spec fn skipped_colliders(
    dimension: Dimension,
    bodies: Map<SourceHandle, SourceBody>,
    table: Map<SourceHandle, TargetHandle>,
    handles: Seq<ColliderHandle>,
    colliders: Seq<SourceCollider>,
) -> Seq<ColliderHandle>
    decreases colliders.len(),
{
    if colliders.len() == 0 || handles.len() != colliders.len() {
        Seq::empty()
    } else {
        let before = skipped_colliders(
            dimension,
            bodies,
            table,
            handles.drop_last(),
            colliders.drop_last(),
        );
        match imported_collider(dimension, bodies, table, handles.last(), colliders.last()) {
            Some(collider) => before,
            None => before.push(handles.last()),
        }
    }
}

/// The target joints of the source joints: one for each, in order, between
/// the target bodies of its two bodies.
pub open spec fn imported_joints(
    dimension: Dimension,
    table: Map<SourceHandle, TargetHandle>,
    joints: Seq<SourceJoint>,
) -> Seq<TargetJoint> {
    Seq::new(
        joints.len(),
        |i: int|
            converted_joint(
                dimension,
                joints[i].params,
                table[joints[i].body1],
                table[joints[i].body2],
            ),
    )
}

/// Every source collider is either imported or skipped, never both: the two
/// counts add up to the size of the collider set.
pub proof fn lemma_imported_or_skipped(
    dimension: Dimension,
    bodies: Map<SourceHandle, SourceBody>,
    table: Map<SourceHandle, TargetHandle>,
    handles: Seq<ColliderHandle>,
    colliders: Seq<SourceCollider>,
)
    requires
        handles.len() == colliders.len(),
    ensures
        imported_colliders(dimension, bodies, table, handles, colliders).len() + skipped_colliders(
            dimension,
            bodies,
            table,
            handles,
            colliders,
        ).len() == colliders.len(),
    decreases colliders.len(),
{
    if colliders.len() > 0 {
        lemma_imported_or_skipped(
            dimension,
            bodies,
            table,
            handles.drop_last(),
            colliders.drop_last(),
        );
    }
}

/// Every collider of the target scene stands for one source collider that
/// nphysics can represent: it carries that collider's handle, sits on part 0
/// of the target body of its parent, and has the density zero where that
/// parent is static or kinematic.
pub proof fn lemma_imported_from_source(
    dimension: Dimension,
    bodies: Map<SourceHandle, SourceBody>,
    table: Map<SourceHandle, TargetHandle>,
    handles: Seq<ColliderHandle>,
    colliders: Seq<SourceCollider>,
    k: int,
) -> (i: int)
    requires
        handles.len() == colliders.len(),
        0 <= k < imported_colliders(dimension, bodies, table, handles, colliders).len(),
    ensures
        0 <= i < colliders.len(),
        imported_collider(dimension, bodies, table, handles[i], colliders[i]) == Some(
            imported_colliders(dimension, bodies, table, handles, colliders)[k],
        ),
        representable(dimension, colliders[i].shape),
        imported_colliders(dimension, bodies, table, handles, colliders)[k].source == handles[i],
        imported_colliders(dimension, bodies, table, handles, colliders)[k].parent
            == spec_whole_body(table[colliders[i].parent]),
        !bodies[colliders[i].parent].status.is_dynamic() ==> imported_colliders(
            dimension,
            bodies,
            table,
            handles,
            colliders,
        )[k].desc.density.bits == 0,
    decreases colliders.len(),
{
    let before = imported_colliders(
        dimension,
        bodies,
        table,
        handles.drop_last(),
        colliders.drop_last(),
    );
    if k < before.len() {
        lemma_imported_from_source(
            dimension,
            bodies,
            table,
            handles.drop_last(),
            colliders.drop_last(),
            k,
        )
    } else {
        colliders.len() - 1
    }
}

} // verus!
