//! The way back: the poses of the target bodies written into the source
//! scene.

use crate::geometry::Placement;
use crate::geometry::Pose;
use crate::handle::BodyHandle;
use crate::handle::ColliderHandle;
use crate::handle::SourceHandle;
use crate::scene::SourceBody;
use crate::scene::SourceCollider;
use vstd::prelude::*;

verus! {

/// One pose for the caller to write into the source scene.
#[derive(Clone, Copy, Debug, PartialEq, Eq, Structural)]
#[allow(inconsistent_fields)]
pub enum SyncOp {
    /// Overwrite the pose of a source body.
    MoveBody { body: BodyHandle, position: Pose },
    /// Overwrite the world pose of a source collider.
    MoveCollider { collider: ColliderHandle, position: Placement },
}

/// The scene can take the poses of a world with the given source bodies:
/// it holds each of these bodies, and each collider attached to one of them.
pub open spec fn syncable(
    sources: Seq<BodyHandle>,
    bodies: Map<SourceHandle, SourceBody>,
    colliders: Map<SourceHandle, SourceCollider>,
) -> bool {
    forall|i: int|
        0 <= i < sources.len() ==> {
            &&& bodies.contains_key(#[trigger] sources[i])
            &&& forall|k: int|
                0 <= k < bodies[sources[i]].colliders@.len() ==> colliders.contains_key(
                    #[trigger] bodies[sources[i]].colliders@[k],
                )
        }
}

/// The move of one collider attached to a body that has just taken the pose
/// `position`: the body's new pose composed with the collider's pose
/// relative to its parent.
pub open spec fn collider_move(
    position: Pose,
    handle: ColliderHandle,
    colliders: Map<SourceHandle, SourceCollider>,
) -> SyncOp {
    SyncOp::MoveCollider {
        collider: handle,
        position: Placement::Product {
            outer: position,
            inner: colliders[handle].position_wrt_parent,
        },
    }
}

/// The moves of the colliders attached to a body, in the order in which the
/// body lists them.
pub open spec fn collider_moves(
    position: Pose,
    attached: Seq<ColliderHandle>,
    colliders: Map<SourceHandle, SourceCollider>,
) -> Seq<SyncOp> {
    Seq::new(attached.len(), |k: int| collider_move(position, attached[k], colliders))
}

/// The moves for one body: its own first, then those of its colliders.
pub open spec fn body_moves(
    body: BodyHandle,
    position: Pose,
    attached: Seq<ColliderHandle>,
    colliders: Map<SourceHandle, SourceCollider>,
) -> Seq<SyncOp> {
    seq![SyncOp::MoveBody { body, position }] + collider_moves(position, attached, colliders)
}

/// The moves of a whole synchronisation: the moves for each source body of
/// the table, body after body, where `poses` holds the pose of the target
/// body of each.
pub open spec fn sync_moves(
    sources: Seq<BodyHandle>,
    poses: Seq<Pose>,
    bodies: Map<SourceHandle, SourceBody>,
    colliders: Map<SourceHandle, SourceCollider>,
) -> Seq<SyncOp>
    decreases sources.len(),
{
    if sources.len() == 0 || poses.len() != sources.len() {
        Seq::empty()
    } else {
        sync_moves(sources.drop_last(), poses.drop_last(), bodies, colliders) + body_moves(
            sources.last(),
            poses.last(),
            bodies[sources.last()].colliders@,
            colliders,
        )
    }
}

/// Where the moves for the body at position `i` begin among all the moves.
pub open spec fn moves_before(
    sources: Seq<BodyHandle>,
    bodies: Map<SourceHandle, SourceBody>,
    i: int,
) -> int
    decreases i,
{
    if i <= 0 {
        0
    } else {
        moves_before(sources, bodies, i - 1) + 1 + bodies[sources[i - 1]].colliders@.len()
    }
}

/// The number of moves is that of the bodies and of their attached colliders
/// together.
pub proof fn lemma_sync_moves_len(
    sources: Seq<BodyHandle>,
    poses: Seq<Pose>,
    bodies: Map<SourceHandle, SourceBody>,
    colliders: Map<SourceHandle, SourceCollider>,
)
    requires
        poses.len() == sources.len(),
    ensures
        sync_moves(sources, poses, bodies, colliders).len() == moves_before(
            sources,
            bodies,
            sources.len() as int,
        ),
    decreases sources.len(),
{
    if sources.len() > 0 {
        lemma_sync_moves_len(sources.drop_last(), poses.drop_last(), bodies, colliders);
        lemma_moves_before_prefix(sources, bodies, sources.len() - 1);
    }
}

/// The place where a body's moves begin depends only on the bodies before it.
pub proof fn lemma_moves_before_prefix(
    sources: Seq<BodyHandle>,
    bodies: Map<SourceHandle, SourceBody>,
    i: int,
)
    requires
        0 <= i < sources.len(),
    ensures
        moves_before(sources.drop_last(), bodies, i) == moves_before(sources, bodies, i),
    decreases i,
{
    if i > 0 {
        lemma_moves_before_prefix(sources, bodies, i - 1);
    }
}

/// After a synchronisation every source body of the table has the pose of
/// its target body, and every collider attached to it has that new pose
/// composed with its own pose relative to the body. The body's move stands
/// first among the moves for the body, so that the colliders are placed from
/// the pose that was just written.
pub proof fn lemma_collider_follows_body(
    sources: Seq<BodyHandle>,
    poses: Seq<Pose>,
    bodies: Map<SourceHandle, SourceBody>,
    colliders: Map<SourceHandle, SourceCollider>,
    i: int,
)
    requires
        poses.len() == sources.len(),
        0 <= i < sources.len(),
    ensures
        ({
            let moves = sync_moves(sources, poses, bodies, colliders);
            let first = moves_before(sources, bodies, i);
            let attached = bodies[sources[i]].colliders@;
            &&& 0 <= first
            &&& first + attached.len() < moves.len()
            &&& moves[first] == (SyncOp::MoveBody { body: sources[i], position: poses[i] })
            &&& forall|k: int|
                0 <= k < attached.len() ==> #[trigger] moves[first + 1 + k]
                    == (SyncOp::MoveCollider {
                    collider: attached[k],
                    position: Placement::Product {
                        outer: poses[i],
                        inner: colliders[attached[k]].position_wrt_parent,
                    },
                })
        }),
    decreases sources.len(),
{
    let n = sources.len() as int;
    let head = sync_moves(sources.drop_last(), poses.drop_last(), bodies, colliders);
    lemma_sync_moves_len(sources.drop_last(), poses.drop_last(), bodies, colliders);
    lemma_moves_before_prefix(sources, bodies, n - 1);
    lemma_moves_before_nonnegative(sources, bodies, i);
    if i == n - 1 {
        assert(head.len() == moves_before(sources, bodies, i));
    } else {
        lemma_collider_follows_body(sources.drop_last(), poses.drop_last(), bodies, colliders, i);
        lemma_moves_before_prefix(sources, bodies, i);
    }
}

/// No body's moves begin before the first move.
pub proof fn lemma_moves_before_nonnegative(
    sources: Seq<BodyHandle>,
    bodies: Map<SourceHandle, SourceBody>,
    i: int,
)
    ensures
        0 <= moves_before(sources, bodies, i),
    decreases i,
{
    if i > 0 {
        lemma_moves_before_nonnegative(sources, bodies, i - 1);
    }
}

} // verus!
