use physics_bridge::geometry::{Dimension, Pose, Rotation, Scalar, Vector};
use physics_bridge::handle::{SourceHandle, TargetHandle};
use physics_bridge::scene::{BodySet, BodyStatus, ColliderSet, JointSet, SourceBody};
use physics_bridge::step::{IntegrationParameters, StepAction};
use physics_bridge::world::NPhysicsWorld;

fn s(x: f32) -> Scalar {
    Scalar::from_bits(x.to_bits())
}

fn world() -> NPhysicsWorld {
    let zero = Vector { x: s(0.0), y: s(0.0), z: s(0.0) };
    let identity = Pose { translation: zero, rotation: Rotation { i: s(0.0), j: s(0.0), k: s(0.0), w: s(1.0) } };
    let mut bodies = BodySet::new();
    bodies.insert(
        SourceHandle::new(0, 0),
        SourceBody { position: identity, status: BodyStatus::Dynamic, colliders: Vec::new() },
    );
    NPhysicsWorld::from_rapier(
        Dimension::Three,
        zero,
        &bodies,
        &vec![TargetHandle::new(4, 2)],
        &ColliderSet::new(),
        &JointSet::new(),
    )
}

#[test]
fn step_is_configure_then_advance_between_the_two_marks() {
    let mut world = world();
    let params = IntegrationParameters { max_position_iterations: 2, max_velocity_iterations: 8, dt: s(1.0 / 60.0) };
    let actions = world.step(&params);
    assert_eq!(
        actions,
        vec![
            StepAction::Configure(params),
            StepAction::StepStarted,
            StepAction::Advance,
            StepAction::StepCompleted,
        ]
    );
}

#[test]
fn step_hands_over_the_three_parameters_as_they_are() {
    let mut world = world();
    let params = IntegrationParameters { max_position_iterations: 5, max_velocity_iterations: 13, dt: s(0.004) };
    let actions = world.step(&params);
    match actions[0] {
        StepAction::Configure(configured) => {
            assert_eq!(configured.max_position_iterations, 5);
            assert_eq!(configured.max_velocity_iterations, 13);
            assert_eq!(f32::from_bits(configured.dt.bits), 0.004);
        }
        _ => panic!("the step does not begin with the parameters"),
    }
}

#[test]
fn world_remembers_the_last_parameters() {
    let mut world = world();
    assert_eq!(world.last_parameters(), None);
    let first = IntegrationParameters { max_position_iterations: 1, max_velocity_iterations: 4, dt: s(0.016) };
    world.step(&first);
    assert_eq!(world.last_parameters(), Some(first));
    let second = IntegrationParameters { max_position_iterations: 3, max_velocity_iterations: 6, dt: s(0.008) };
    world.step(&second);
    assert_eq!(world.last_parameters(), Some(second));
}

#[test]
fn step_leaves_the_table_alone() {
    let mut world = world();
    let params = IntegrationParameters { max_position_iterations: 1, max_velocity_iterations: 4, dt: s(0.016) };
    world.step(&params);
    world.step(&params);
    assert_eq!(world.len(), 1);
    assert_eq!(world.source_at(0), SourceHandle::new(0, 0));
    assert_eq!(world.target_of(SourceHandle::new(0, 0)), Some(TargetHandle::new(4, 2)));
    assert_eq!(world.target_bodies().len(), 1);
}
