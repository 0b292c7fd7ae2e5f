//! The bridge itself: a rapier scene rebuilt for nphysics.

use crate::collider::nphysics_collider_from_rapier_collider;
use crate::geometry::Dimension;
use crate::geometry::Placement;
use crate::geometry::Pose;
use crate::geometry::Vector;
use crate::handle::ColliderHandle;
use crate::handle::SourceHandle;
use crate::handle::TargetHandle;
use crate::handle_map::HandleMap;
use crate::import::closed_scene;
use crate::import::imported_bodies;
use crate::import::imported_colliders;
use crate::import::imported_joints;
use crate::import::skipped_colliders;
use crate::joint::convert_joint;
use crate::joint::whole_body;
use crate::scene::BodySet;
use crate::scene::ColliderSet;
use crate::scene::JointSet;
use crate::step::IntegrationParameters;
use crate::step::step_actions;
use crate::step::StepAction;
use crate::sync::body_moves;
use crate::sync::sync_moves;
use crate::sync::syncable;
use crate::sync::SyncOp;
use crate::target::RigidBodyDesc;
use crate::target::TargetCollider;
use crate::target::TargetJoint;
use vstd::prelude::*;

verus! {

/// A source scene as it stands in the target engine, with the table that
/// leads from each source body to its target body.
pub struct NPhysicsWorld {
    dimension: Dimension,
    gravity: Vector,
    rapier2nphysics: HandleMap<TargetHandle>,
    bodies: Vec<RigidBodyDesc>,
    colliders: Vec<TargetCollider>,
    skipped: Vec<ColliderHandle>,
    joints: Vec<TargetJoint>,
    integration_parameters: Option<IntegrationParameters>,
}

impl NPhysicsWorld {
    /// The dimension of the scene.
    pub closed spec fn dimension(self) -> Dimension {
        self.dimension
    }

    /// The gravity that the target world was made with.
    pub closed spec fn gravity(self) -> Vector {
        self.gravity
    }

    /// The correspondence table: the target body of each source body.
    pub closed spec fn correspondence(self) -> Map<SourceHandle, TargetHandle> {
        self.rapier2nphysics@
    }

    /// The source bodies of the table, in the order of the import.
    pub closed spec fn sources(self) -> Seq<SourceHandle> {
        self.rapier2nphysics.keys()
    }

    /// The target bodies of the table, each at the position of its source
    /// body in `sources`.
    pub closed spec fn targets(self) -> Seq<TargetHandle> {
        self.rapier2nphysics.values()
    }

    /// What the target bodies were built from, in the order of the import.
    pub closed spec fn bodies(self) -> Seq<RigidBodyDesc> {
        self.bodies@
    }

    /// The colliders of the target scene.
    pub closed spec fn colliders(self) -> Seq<TargetCollider> {
        self.colliders@
    }

    /// The source colliders that have no collider in the target scene.
    pub closed spec fn skipped(self) -> Seq<ColliderHandle> {
        self.skipped@
    }

    /// The joints of the target scene.
    pub closed spec fn joints(self) -> Seq<TargetJoint> {
        self.joints@
    }

    /// The parameters that the last step handed to the target, if there was
    /// a step.
    pub closed spec fn integration_parameters(self) -> Option<IntegrationParameters> {
        self.integration_parameters
    }

    /// The table is consistent and names one target body per imported body.
    pub closed spec fn wf(self) -> bool {
        &&& self.rapier2nphysics.wf()
        &&& self.bodies@.len() == self.rapier2nphysics.keys().len()
    }

    /// In a consistent world every source body of the table has exactly one
    /// entry, and the table has no other entry.
    pub proof fn lemma_one_entry_each(self)
        requires
            self.wf(),
        ensures
            self.sources().no_duplicates(),
            self.sources().len() == self.targets().len(),
            self.correspondence().dom() == self.sources().to_set(),
            forall|i: int|
                0 <= i < self.sources().len() ==> self.correspondence()[#[trigger] self.sources()[i]]
                    == self.targets()[i],
    {
        self.rapier2nphysics.lemma_wf();
    }

    /// Whether every collider sits on a body of the scene, every joint links
    /// two bodies of the scene, and every joint exists in the dimension.
    pub fn is_closed(
        dimension: Dimension,
        bodies: &BodySet,
        colliders: &ColliderSet,
        joints: &JointSet,
    ) -> (b: bool)
        requires
            bodies.wf(),
            colliders.wf(),
        ensures
            b == closed_scene(dimension, bodies@, colliders.values(), joints@),
    {
        let m: usize = colliders.len();
        let mut i: usize = 0;
        while i < m
            invariant
                bodies.wf(),
                colliders.wf(),
                m == colliders.values().len(),
                i <= m,
                forall|k: int|
                    0 <= k < i ==> bodies@.contains_key((#[trigger] colliders.values()[k]).parent),
            decreases m - i,
        {
            if !bodies.contains(colliders.value_at(i).parent) {
                return false;
            }
            i += 1;
        }
        let n: usize = joints.len();
        let mut j: usize = 0;
        while j < n
            invariant
                bodies.wf(),
                n == joints@.len(),
                j <= n,
                forall|k: int|
                    0 <= k < j ==> {
                        &&& bodies@.contains_key((#[trigger] joints@[k]).body1)
                        &&& bodies@.contains_key(joints@[k].body2)
                        &&& joints@[k].params.exists_in(dimension)
                    },
            decreases n - j,
        {
            let joint = &joints[j];
            if !bodies.contains(joint.body1) || !bodies.contains(joint.body2)
                || !joint.params.exists_in(dimension) {
                return false;
            }
            j += 1;
        }
        true
    }

    /// Rebuilds a source scene for the target engine. `targets` holds the
    /// handle that the target engine gave to the body built from each source
    /// body, in the order of the body set.
    ///
    /// The table leads from every source body to its target body and holds
    /// nothing else. Every collider that nphysics can represent stands on
    /// part 0 of the target body of its parent; the others are listed as
    /// skipped. Every joint links the target bodies of its two bodies.
    pub fn from_rapier(
        dimension: Dimension,
        gravity: Vector,
        bodies: &BodySet,
        targets: &Vec<TargetHandle>,
        colliders: &ColliderSet,
        joints: &JointSet,
    ) -> (world: NPhysicsWorld)
        requires
            bodies.wf(),
            colliders.wf(),
            targets@.len() == bodies.keys().len(),
            closed_scene(dimension, bodies@, colliders.values(), joints@),
        ensures
            world.wf(),
            world.dimension() == dimension,
            world.gravity() == gravity,
            world.sources() == bodies.keys(),
            world.targets() == targets@,
            world.correspondence().dom() == bodies@.dom(),
            world.bodies() == imported_bodies(bodies.values()),
            world.colliders() == imported_colliders(
                dimension,
                bodies@,
                world.correspondence(),
                colliders.keys(),
                colliders.values(),
            ),
            world.skipped() == skipped_colliders(
                dimension,
                bodies@,
                world.correspondence(),
                colliders.keys(),
                colliders.values(),
            ),
            world.joints() == imported_joints(dimension, world.correspondence(), joints@),
            world.integration_parameters() is None,
    {
        proof {
            bodies.lemma_wf();
            colliders.lemma_wf();
        }
        let n: usize = bodies.len();
        let mut rapier2nphysics: HandleMap<TargetHandle> = HandleMap::new();
        let mut i: usize = 0;
        while i < n
            invariant
                bodies.wf(),
                bodies.keys().no_duplicates(),
                n == bodies.keys().len(),
                n == targets@.len(),
                i <= n,
                rapier2nphysics.wf(),
                rapier2nphysics.keys() == bodies.keys().take(i as int),
                rapier2nphysics.values() == targets@.take(i as int),
            decreases n - i,
        {
            let handle = bodies.key_at(i);
            proof {
                rapier2nphysics.lemma_wf();
                if rapier2nphysics@.contains_key(handle) {
                    let j = rapier2nphysics.keys().index_of(handle);
                    assert(rapier2nphysics.keys()[j] == handle);
                    assert(bodies.keys()[j] == bodies.keys()[i as int]);
                }
            }
            let fresh = rapier2nphysics.insert(handle, targets[i]);
            assert(fresh);
            assert(rapier2nphysics.keys() =~= bodies.keys().take(i + 1));
            assert(rapier2nphysics.values() =~= targets@.take(i + 1));
            i += 1;
        }
        assert(rapier2nphysics.keys() =~= bodies.keys());
        assert(rapier2nphysics.values() =~= targets@);
        proof {
            rapier2nphysics.lemma_wf();
        }
        assert(rapier2nphysics@.dom() =~= bodies@.dom());

        let descs = NPhysicsWorld::body_descs(bodies);

        let m: usize = colliders.len();
        let mut target_colliders: Vec<TargetCollider> = Vec::new();
        let mut skipped: Vec<ColliderHandle> = Vec::new();
        let mut c: usize = 0;
        while c < m
            invariant
                bodies.wf(),
                colliders.wf(),
                rapier2nphysics.wf(),
                rapier2nphysics@.dom() == bodies@.dom(),
                m == colliders.values().len(),
                m == colliders.keys().len(),
                c <= m,
                closed_scene(dimension, bodies@, colliders.values(), joints@),
                target_colliders@ == imported_colliders(
                    dimension,
                    bodies@,
                    rapier2nphysics@,
                    colliders.keys().take(c as int),
                    colliders.values().take(c as int),
                ),
                skipped@ == skipped_colliders(
                    dimension,
                    bodies@,
                    rapier2nphysics@,
                    colliders.keys().take(c as int),
                    colliders.values().take(c as int),
                ),
            decreases m - c,
        {
            let handle = colliders.key_at(c);
            let collider = colliders.value_at(c);
            assert(bodies@.contains_key(colliders.values()[c as int].parent));
            let parent = bodies.index(collider.parent);
            let target = *rapier2nphysics.index(collider.parent);
            proof {
                assert(colliders.keys().take(c + 1).drop_last() =~= colliders.keys().take(c as int));
                assert(colliders.values().take(c + 1).drop_last() =~= colliders.values().take(
                    c as int,
                ));
            }
            match nphysics_collider_from_rapier_collider(
                dimension,
                collider,
                parent.status.is_dynamic(),
            ) {
                Some(desc) => {
                    target_colliders.push(
                        TargetCollider { source: handle, parent: whole_body(target), desc },
                    );
                },
                None => {
                    skipped.push(handle);
                },
            }
            c += 1;
        }
        assert(colliders.keys().take(m as int) =~= colliders.keys());
        assert(colliders.values().take(m as int) =~= colliders.values());

        let count: usize = joints.len();
        let mut target_joints: Vec<TargetJoint> = Vec::new();
        let mut j: usize = 0;
        while j < count
            invariant
                bodies.wf(),
                rapier2nphysics.wf(),
                rapier2nphysics@.dom() == bodies@.dom(),
                count == joints@.len(),
                j <= count,
                closed_scene(dimension, bodies@, colliders.values(), joints@),
                target_joints@.len() == j,
                forall|k: int|
                    0 <= k < j ==> target_joints@[k] == imported_joints(
                        dimension,
                        rapier2nphysics@,
                        joints@,
                    )[k],
            decreases count - j,
        {
            let joint = &joints[j];
            assert(bodies@.contains_key(joints@[j as int].body1));
            let body1 = *rapier2nphysics.index(joint.body1);
            let body2 = *rapier2nphysics.index(joint.body2);
            target_joints.push(convert_joint(dimension, &joint.params, body1, body2));
            j += 1;
        }
        assert(target_joints@ =~= imported_joints(dimension, rapier2nphysics@, joints@));

        NPhysicsWorld {
            dimension,
            gravity,
            rapier2nphysics,
            bodies: descs,
            colliders: target_colliders,
            skipped,
            joints: target_joints,
            integration_parameters: None,
        }
    }

    /// Orders one step of the target engine. The three parameters are handed
    /// to the target, which is then advanced once, between the two marks for
    /// the counters. The world remembers the parameters; the scene and the
    /// table stay as they are.
    pub fn step(&mut self, params: &IntegrationParameters) -> (actions: Vec<StepAction>)
        requires
            old(self).wf(),
        ensures
            final(self).wf(),
            actions@ == step_actions(*params),
            final(self).integration_parameters() == Some(*params),
            final(self).dimension() == old(self).dimension(),
            final(self).gravity() == old(self).gravity(),
            final(self).correspondence() == old(self).correspondence(),
            final(self).sources() == old(self).sources(),
            final(self).targets() == old(self).targets(),
            final(self).bodies() == old(self).bodies(),
            final(self).colliders() == old(self).colliders(),
            final(self).skipped() == old(self).skipped(),
            final(self).joints() == old(self).joints(),
    {
        self.integration_parameters = Some(*params);
        let mut actions: Vec<StepAction> = Vec::new();
        actions.push(StepAction::Configure(*params));
        actions.push(StepAction::StepStarted);
        actions.push(StepAction::Advance);
        actions.push(StepAction::StepCompleted);
        assert(actions@ =~= step_actions(*params));
        actions
    }

    /// Whether the scene holds every source body of the table and every
    /// collider attached to one of them.
    pub fn can_sync(&self, bodies: &BodySet, colliders: &ColliderSet) -> (b: bool)
        requires
            self.wf(),
            bodies.wf(),
            colliders.wf(),
        ensures
            b == syncable(self.sources(), bodies@, colliders@),
    {
        let n: usize = self.rapier2nphysics.len();
        let mut i: usize = 0;
        while i < n
            invariant
                self.wf(),
                bodies.wf(),
                colliders.wf(),
                n == self.sources().len(),
                i <= n,
                syncable(self.sources().take(i as int), bodies@, colliders@),
            decreases n - i,
        {
            let handle = self.rapier2nphysics.key_at(i);
            let body = match bodies.get(handle) {
                Some(body) => body,
                None => {
                    return false;
                },
            };
            let count: usize = body.colliders.len();
            let mut k: usize = 0;
            while k < count
                invariant
                    colliders.wf(),
                    i < self.sources().len(),
                    bodies@.contains_key(self.sources()[i as int]),
                    *body == bodies@[self.sources()[i as int]],
                    count == body.colliders@.len(),
                    k <= count,
                    forall|j: int|
                        0 <= j < k ==> colliders@.contains_key(#[trigger] body.colliders@[j]),
                decreases count - k,
            {
                if !colliders.contains(body.colliders[k]) {
                    assert(!colliders@.contains_key(
                        bodies@[self.sources()[i as int]].colliders@[k as int],
                    ));
                    return false;
                }
                k += 1;
            }
            assert forall|j: int| 0 <= j < i + 1 implies {
                &&& bodies@.contains_key(#[trigger] self.sources().take(i + 1)[j])
                &&& forall|k: int|
                    0 <= k < bodies@[self.sources().take(i + 1)[j]].colliders@.len()
                        ==> colliders@.contains_key(
                        #[trigger] bodies@[self.sources().take(i + 1)[j]].colliders@[k],
                    )
            } by {
                if j < i {
                    assert(self.sources().take(i + 1)[j] == self.sources().take(i as int)[j]);
                }
            }
            i += 1;
        }
        assert(self.sources().take(n as int) =~= self.sources());
        true
    }

    /// The poses to write into the source scene after a step, where `poses`
    /// holds the pose that the target engine now has for the target body of
    /// each source body, in the order of the table.
    ///
    /// Body after body, the source body takes the pose of its target body,
    /// and then each collider attached to it takes that pose composed with
    /// its own pose relative to the body.
    pub fn sync(&self, poses: &Vec<Pose>, bodies: &BodySet, colliders: &ColliderSet) -> (moves: Vec<
        SyncOp,
    >)
        requires
            self.wf(),
            bodies.wf(),
            colliders.wf(),
            poses@.len() == self.sources().len(),
            syncable(self.sources(), bodies@, colliders@),
        ensures
            moves@ == sync_moves(self.sources(), poses@, bodies@, colliders@),
    {
        let n: usize = self.rapier2nphysics.len();
        let mut moves: Vec<SyncOp> = Vec::new();
        let mut i: usize = 0;
        while i < n
            invariant
                self.wf(),
                bodies.wf(),
                colliders.wf(),
                n == self.sources().len(),
                n == poses@.len(),
                i <= n,
                syncable(self.sources(), bodies@, colliders@),
                moves@ == sync_moves(
                    self.sources().take(i as int),
                    poses@.take(i as int),
                    bodies@,
                    colliders@,
                ),
            decreases n - i,
        {
            let handle = self.rapier2nphysics.key_at(i);
            let position = poses[i];
            let body = bodies.index(handle);
            let ghost before = moves@;
            moves.push(SyncOp::MoveBody { body: handle, position });
            let count: usize = body.colliders.len();
            let mut k: usize = 0;
            while k < count
                invariant
                    colliders.wf(),
                    count == body.colliders@.len(),
                    k <= count,
                    forall|j: int|
                        0 <= j < count ==> colliders@.contains_key(#[trigger] body.colliders@[j]),
                    moves@ == before + body_moves(
                        handle,
                        position,
                        body.colliders@.take(k as int),
                        colliders@,
                    ),
                decreases count - k,
            {
                let attached = body.colliders[k];
                let collider = colliders.index(attached);
                moves.push(
                    SyncOp::MoveCollider {
                        collider: attached,
                        position: Placement::Product {
                            outer: position,
                            inner: collider.position_wrt_parent,
                        },
                    },
                );
                assert(moves@ =~= before + body_moves(
                    handle,
                    position,
                    body.colliders@.take(k + 1),
                    colliders@,
                ));
                k += 1;
            }
            proof {
                assert(body.colliders@.take(count as int) =~= body.colliders@);
                assert(self.sources().take(i + 1).drop_last() =~= self.sources().take(i as int));
                assert(poses@.take(i + 1).drop_last() =~= poses@.take(i as int));
            }
            i += 1;
        }
        assert(self.sources().take(n as int) =~= self.sources());
        assert(poses@.take(n as int) =~= poses@);
        moves
    }

    /// The number of bodies in the table.
    pub fn len(&self) -> (n: usize)
        requires
            self.wf(),
        ensures
            n == self.sources().len(),
            n == self.targets().len(),
    {
        self.rapier2nphysics.len()
    }

    /// The source body at a position of the table.
    pub fn source_at(&self, i: usize) -> (handle: SourceHandle)
        requires
            self.wf(),
            i < self.sources().len(),
        ensures
            handle == self.sources()[i as int],
    {
        self.rapier2nphysics.key_at(i)
    }

    /// The target body at a position of the table.
    pub fn target_at(&self, i: usize) -> (handle: TargetHandle)
        requires
            self.wf(),
            i < self.targets().len(),
        ensures
            handle == self.targets()[i as int],
    {
        *self.rapier2nphysics.value_at(i)
    }

    /// The target body of a source body, if the table holds it.
    pub fn target_of(&self, handle: SourceHandle) -> (target: Option<TargetHandle>)
        requires
            self.wf(),
        ensures
            match target {
                Some(t) => self.correspondence().contains_key(handle) && t
                    == self.correspondence()[handle],
                None => !self.correspondence().contains_key(handle),
            },
    {
        match self.rapier2nphysics.get(handle) {
            Some(target) => Some(*target),
            None => None,
        }
    }

    /// The dimension of the scene.
    pub fn scene_dimension(&self) -> (dimension: Dimension)
        ensures
            dimension == self.dimension(),
    {
        self.dimension
    }

    /// The gravity that the target world is to be made with.
    pub fn scene_gravity(&self) -> (gravity: Vector)
        ensures
            gravity == self.gravity(),
    {
        self.gravity
    }

    /// What the target bodies are built from.
    pub fn target_bodies(&self) -> (bodies: &Vec<RigidBodyDesc>)
        ensures
            bodies@ == self.bodies(),
    {
        &self.bodies
    }

    /// The colliders of the target scene.
    pub fn target_colliders(&self) -> (colliders: &Vec<TargetCollider>)
        ensures
            colliders@ == self.colliders(),
    {
        &self.colliders
    }

    /// The source colliders that the target scene leaves out.
    pub fn skipped_colliders(&self) -> (skipped: &Vec<ColliderHandle>)
        ensures
            skipped@ == self.skipped(),
    {
        &self.skipped
    }

    /// The joints of the target scene.
    pub fn target_joints(&self) -> (joints: &Vec<TargetJoint>)
        ensures
            joints@ == self.joints(),
    {
        &self.joints
    }

    /// The parameters that the last step handed to the target, if there was
    /// a step.
    pub fn last_parameters(&self) -> (params: Option<IntegrationParameters>)
        ensures
            params == self.integration_parameters(),
    {
        self.integration_parameters
    }

    /// What the target body of each source body is to be built from, in the
    /// order of the body set: its pose alone. Velocities and forces are not
    /// taken over.
    pub fn body_descs(bodies: &BodySet) -> (descs: Vec<RigidBodyDesc>)
        requires
            bodies.wf(),
        ensures
            descs@ == imported_bodies(bodies.values()),
    {
        let n: usize = bodies.len();
        let mut descs: Vec<RigidBodyDesc> = Vec::new();
        let mut i: usize = 0;
        while i < n
            invariant
                bodies.wf(),
                n == bodies.values().len(),
                i <= n,
                descs@.len() == i,
                forall|k: int|
                    0 <= k < i ==> descs@[k] == (RigidBodyDesc {
                        position: bodies.values()[k].position,
                    }),
            decreases n - i,
        {
            descs.push(RigidBodyDesc { position: bodies.value_at(i).position });
            i += 1;
        }
        assert(descs@ =~= imported_bodies(bodies.values()));
        descs
    }
}

} // verus!
