use nalgebra::{Isometry3, Quaternion, Translation3, UnitQuaternion, Vector3};
use physics_bridge::geometry::{Dimension, Placement, Pose, Rotation, Scalar, Vector};
use physics_bridge::handle::{SourceHandle, TargetHandle};
use physics_bridge::scene::{
    BodySet, BodyStatus, ColliderSet, JointSet, SourceBody, SourceCollider, SourceShape,
};
use physics_bridge::sync::SyncOp;
use physics_bridge::world::NPhysicsWorld;

fn s(x: f32) -> Scalar {
    Scalar::from_bits(x.to_bits())
}

fn r(x: Scalar) -> f32 {
    f32::from_bits(x.bits)
}

fn pose(iso: &Isometry3<f32>) -> Pose {
    Pose {
        translation: Vector {
            x: s(iso.translation.vector.x),
            y: s(iso.translation.vector.y),
            z: s(iso.translation.vector.z),
        },
        rotation: Rotation { i: s(iso.rotation.i), j: s(iso.rotation.j), k: s(iso.rotation.k), w: s(iso.rotation.w) },
    }
}

fn isometry(p: Pose) -> Isometry3<f32> {
    Isometry3::from_parts(
        Translation3::new(r(p.translation.x), r(p.translation.y), r(p.translation.z)),
        UnitQuaternion::new_unchecked(Quaternion::new(r(p.rotation.w), r(p.rotation.i), r(p.rotation.j), r(p.rotation.k))),
    )
}

fn evaluate(placement: Placement) -> Isometry3<f32> {
    match placement {
        Placement::At(p) => isometry(p),
        Placement::Product { outer, inner } => isometry(outer) * isometry(inner),
    }
}

fn collider(parent: SourceHandle, local: &Isometry3<f32>) -> SourceCollider {
    SourceCollider {
        parent,
        shape: SourceShape::Ball { radius: s(0.5) },
        position_wrt_parent: pose(local),
        density: s(1.0),
        sensor: false,
    }
}

fn scene() -> (BodySet, ColliderSet, NPhysicsWorld) {
    let b0 = SourceHandle::new(0, 0);
    let b1 = SourceHandle::new(1, 0);
    let c0 = SourceHandle::new(0, 0);
    let c1 = SourceHandle::new(1, 0);
    let c2 = SourceHandle::new(2, 3);
    let mut bodies = BodySet::new();
    bodies.insert(
        b0,
        SourceBody { position: pose(&Isometry3::identity()), status: BodyStatus::Dynamic, colliders: vec![c0, c2] },
    );
    bodies.insert(
        b1,
        SourceBody { position: pose(&Isometry3::identity()), status: BodyStatus::Static, colliders: vec![c1] },
    );
    let mut colliders = ColliderSet::new();
    colliders.insert(c0, collider(b0, &Isometry3::translation(1.0, 0.0, 0.0)));
    colliders.insert(c1, collider(b1, &Isometry3::translation(0.0, 0.0, -4.0)));
    colliders.insert(c2, collider(b0, &Isometry3::new(Vector3::new(0.0, 2.0, 0.0), Vector3::new(0.0, 0.0, 0.5))));
    let world = NPhysicsWorld::from_rapier(
        Dimension::Three,
        Vector { x: s(0.0), y: s(-9.81), z: s(0.0) },
        &bodies,
        &vec![TargetHandle::new(20, 0), TargetHandle::new(21, 0)],
        &colliders,
        &JointSet::new(),
    );
    (bodies, colliders, world)
}

#[test]
fn each_body_moves_before_its_colliders() {
    let (bodies, colliders, world) = scene();
    let p0 = pose(&Isometry3::translation(0.0, -1.0, 0.0));
    let p1 = pose(&Isometry3::translation(5.0, 0.0, 0.0));
    let moves = world.sync(&vec![p0, p1], &bodies, &colliders);
    let local0 = pose(&Isometry3::translation(1.0, 0.0, 0.0));
    let local1 = pose(&Isometry3::translation(0.0, 0.0, -4.0));
    let local2 = pose(&Isometry3::new(Vector3::new(0.0, 2.0, 0.0), Vector3::new(0.0, 0.0, 0.5)));
    assert_eq!(
        moves,
        vec![
            SyncOp::MoveBody { body: SourceHandle::new(0, 0), position: p0 },
            SyncOp::MoveCollider {
                collider: SourceHandle::new(0, 0),
                position: Placement::Product { outer: p0, inner: local0 },
            },
            SyncOp::MoveCollider {
                collider: SourceHandle::new(2, 3),
                position: Placement::Product { outer: p0, inner: local2 },
            },
            SyncOp::MoveBody { body: SourceHandle::new(1, 0), position: p1 },
            SyncOp::MoveCollider {
                collider: SourceHandle::new(1, 0),
                position: Placement::Product { outer: p1, inner: local1 },
            },
        ]
    );
}

#[test]
fn collider_pose_is_the_body_pose_times_the_local_pose() {
    let (bodies, colliders, world) = scene();
    let injected0 = Isometry3::new(Vector3::new(0.0, -1.0, 0.0), Vector3::new(0.0, 1.0, 0.0));
    let injected1 = Isometry3::translation(5.0, 0.0, 0.0);
    let moves = world.sync(&vec![pose(&injected0), pose(&injected1)], &bodies, &colliders);
    let local2 = Isometry3::new(Vector3::new(0.0, 2.0, 0.0), Vector3::new(0.0, 0.0, 0.5));
    match moves[2] {
        SyncOp::MoveCollider { collider, position } => {
            assert_eq!(collider, SourceHandle::new(2, 3));
            assert_eq!(evaluate(position), injected0 * local2);
        }
        _ => panic!("not a collider"),
    }
    match moves[4] {
        SyncOp::MoveCollider { collider, position } => {
            assert_eq!(collider, SourceHandle::new(1, 0));
            let placed = evaluate(position);
            assert_eq!(placed.translation.vector, Vector3::new(5.0, 0.0, -4.0));
            assert_eq!(placed, injected1 * Isometry3::translation(0.0, 0.0, -4.0));
        }
        _ => panic!("not a collider"),
    }
}

#[test]
fn body_takes_the_pose_of_its_target_bit_for_bit() {
    let (bodies, colliders, world) = scene();
    let injected = Isometry3::new(Vector3::new(0.25, -1.5, 3.0), Vector3::new(0.1, 0.2, 0.3));
    let moves = world.sync(&vec![pose(&injected), pose(&Isometry3::identity())], &bodies, &colliders);
    match moves[0] {
        SyncOp::MoveBody { body, position } => {
            assert_eq!(body, SourceHandle::new(0, 0));
            assert_eq!(isometry(position), injected);
        }
        _ => panic!("not a body"),
    }
}

#[test]
fn body_without_colliders_moves_alone() {
    let mut bodies = BodySet::new();
    let identity = pose(&Isometry3::identity());
    bodies.insert(SourceHandle::new(3, 1), SourceBody { position: identity, status: BodyStatus::Dynamic, colliders: Vec::new() });
    let colliders = ColliderSet::new();
    let world = NPhysicsWorld::from_rapier(
        Dimension::Three,
        Vector { x: s(0.0), y: s(0.0), z: s(0.0) },
        &bodies,
        &vec![TargetHandle::new(0, 0)],
        &colliders,
        &JointSet::new(),
    );
    let p = pose(&Isometry3::translation(0.0, 0.0, 9.0));
    assert_eq!(
        world.sync(&vec![p], &bodies, &colliders),
        vec![SyncOp::MoveBody { body: SourceHandle::new(3, 1), position: p }]
    );
}

#[test]
fn empty_world_has_nothing_to_move() {
    let world = NPhysicsWorld::from_rapier(
        Dimension::Three,
        Vector { x: s(0.0), y: s(0.0), z: s(0.0) },
        &BodySet::new(),
        &Vec::new(),
        &ColliderSet::new(),
        &JointSet::new(),
    );
    assert!(world.can_sync(&BodySet::new(), &ColliderSet::new()));
    assert!(world.sync(&Vec::new(), &BodySet::new(), &ColliderSet::new()).is_empty());
}

#[test]
fn scene_of_the_import_can_be_synced() {
    let (bodies, colliders, world) = scene();
    assert!(world.can_sync(&bodies, &colliders));
}

#[test]
fn scene_without_a_body_of_the_table_cannot_be_synced() {
    let (_, colliders, world) = scene();
    let mut other = BodySet::new();
    other.insert(
        SourceHandle::new(0, 0),
        SourceBody { position: pose(&Isometry3::identity()), status: BodyStatus::Dynamic, colliders: Vec::new() },
    );
    assert!(!world.can_sync(&other, &colliders));
    assert!(!world.can_sync(&BodySet::new(), &colliders));
}

#[test]
fn scene_without_an_attached_collider_cannot_be_synced() {
    let (bodies, _, world) = scene();
    let mut fewer = ColliderSet::new();
    fewer.insert(SourceHandle::new(0, 0), collider(SourceHandle::new(0, 0), &Isometry3::identity()));
    fewer.insert(SourceHandle::new(1, 0), collider(SourceHandle::new(1, 0), &Isometry3::identity()));
    assert!(!world.can_sync(&bodies, &fewer));
}
