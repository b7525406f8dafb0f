use rapier3d::dynamics::{
    ImpulseJointSet, IslandManager, MultibodyJointSet, RigidBodyBuilder, RigidBodyHandle,
    RigidBodySet,
};
use rapier3d::geometry::ColliderSet;
use rapier3d::math::{Rotation, Vector};
use urdf_bridge::frame::{
    convert_pose, fixed_remap, place_link, root_correction, sync_robot_geometry, FrameRemap,
    LinkEntity, Transform, UrdfRobotRigidBodyHandle, ONE, QUARTER_TURN_COSINE,
};
use urdf_bridge::physics::{BodyHandle, Pose, Quaternion, Vector3};
use urdf_bridge::visual::VisualMesh;

fn quat(i: f32, j: f32, k: f32, w: f32) -> Quaternion {
    Quaternion { i: i.to_bits(), j: j.to_bits(), k: k.to_bits(), w: w.to_bits() }
}

fn vec3(x: f32, y: f32, z: f32) -> Vector3 {
    Vector3 { x: x.to_bits(), y: y.to_bits(), z: z.to_bits() }
}

fn quat_parts(q: Quaternion) -> (f32, f32, f32, f32) {
    (f32::from_bits(q.i), f32::from_bits(q.j), f32::from_bits(q.k), f32::from_bits(q.w))
}

fn vec3_parts(v: Vector3) -> (f32, f32, f32) {
    (f32::from_bits(v.x), f32::from_bits(v.y), f32::from_bits(v.z))
}

fn near3(got: (f32, f32, f32), want: (f32, f32, f32)) -> bool {
    (got.0 - want.0).abs() < 1e-5 && (got.1 - want.1).abs() < 1e-5 && (got.2 - want.2).abs() < 1e-5
}

/// The product of two quaternions.
fn compose(a: Quaternion, b: Quaternion) -> Quaternion {
    let (ai, aj, ak, aw) = quat_parts(a);
    let (bi, bj, bk, bw) = quat_parts(b);
    quat(
        aw * bi + ai * bw + aj * bk - ak * bj,
        aw * bj - ai * bk + aj * bw + ak * bi,
        aw * bk + ai * bj - aj * bi + ak * bw,
        aw * bw - ai * bi - aj * bj - ak * bk,
    )
}

/// The vector `v` turned by the unit quaternion `q`.
fn rotate(q: Quaternion, v: Vector3) -> Vector3 {
    let (bx, by, bz, w) = quat_parts(q);
    let (x, y, z) = vec3_parts(v);
    let b2 = bx * bx + by * by + bz * bz;
    let dot2 = (x * bx + y * by + z * bz) * 2.0;
    let cross = (by * z - bz * y, bz * x - bx * z, bx * y - by * x);
    let (s, c) = (w * w - b2, w * 2.0);
    vec3(x * s + bx * dot2 + cross.0 * c, y * s + by * dot2 + cross.1 * c, z * s + bz * dot2 + cross.2 * c)
}

type Remap = FrameRemap<fn(Quaternion, Quaternion) -> Quaternion, fn(Quaternion, Vector3) -> Vector3>;

/// The two products in single precision.
fn remap() -> Remap {
    FrameRemap { compose, rotate }
}

fn keep_rotation(_fix: Quaternion, rotation: Quaternion) -> Quaternion {
    rotation
}

fn keep_vector(_fix: Quaternion, vector: Vector3) -> Vector3 {
    vector
}

/// Products that hand back what they are given to turn.
fn same() -> Remap {
    FrameRemap { compose: keep_rotation, rotate: keep_vector }
}

fn handle_of(raw: RigidBodyHandle) -> UrdfRobotRigidBodyHandle {
    let (index, generation) = raw.into_raw_parts();
    UrdfRobotRigidBodyHandle(BodyHandle { index, generation })
}

fn resting() -> Transform {
    Transform { translation: vec3(7.0, 8.0, 9.0), rotation: quat(0.0, 0.0, 0.0, 1.0) }
}

fn entity(link: usize, body: UrdfRobotRigidBodyHandle) -> LinkEntity {
    LinkEntity { link, mesh: VisualMesh::Sphere { radius: 1.0f64.to_bits() }, body, transform: resting() }
}

fn translation(t: &Transform) -> (f32, f32, f32) {
    vec3_parts(t.translation)
}

#[test]
fn live_body_places_its_entity_at_its_pose() {
    let mut bodies = RigidBodySet::new();
    let raw = bodies.insert(
        RigidBodyBuilder::dynamic()
            .translation(Vector::new(1.0, 2.0, 3.0))
            .rotation(Vector::new(0.0, 0.0, 0.5))
            .build(),
    );
    let placement = place_link(handle_of(raw), &bodies, &same()).expect("the body is live");
    assert_eq!(translation(&placement), (1.0, 2.0, 3.0));
    let rotation = Rotation::from_scaled_axis(Vector::new(0.0, 0.0, 0.5));
    assert_eq!(
        quat_parts(placement.rotation),
        (rotation.i, rotation.j, rotation.k, rotation.w)
    );
}

#[test]
fn unknown_body_places_nothing() {
    let mut bodies = RigidBodySet::new();
    let raw = bodies.insert(RigidBodyBuilder::dynamic().build());
    let (index, generation) = raw.into_raw_parts();
    let stale = UrdfRobotRigidBodyHandle(BodyHandle { index, generation: generation + 1 });
    let beyond = UrdfRobotRigidBodyHandle(BodyHandle { index: index + 100, generation });
    assert!(place_link(stale, &bodies, &same()).is_none());
    assert!(place_link(beyond, &bodies, &same()).is_none());
    assert!(place_link(handle_of(raw), &bodies, &same()).is_some());
}

#[test]
fn sync_moves_live_entities_and_leaves_the_others() {
    let mut bodies = RigidBodySet::new();
    let mut colliders = ColliderSet::new();
    let mut islands = IslandManager::new();
    let mut impulse_joints = ImpulseJointSet::new();
    let mut multibody_joints = MultibodyJointSet::new();
    let a = bodies.insert(RigidBodyBuilder::dynamic().translation(Vector::new(1.0, 0.0, 0.0)).build());
    let b = bodies.insert(RigidBodyBuilder::dynamic().translation(Vector::new(2.0, 0.0, 0.0)).build());
    let c = bodies.insert(RigidBodyBuilder::dynamic().translation(Vector::new(3.0, 0.0, 0.0)).build());
    let mut entities = vec![entity(0, handle_of(a)), entity(1, handle_of(b)), entity(2, handle_of(c))];
    bodies.remove(b, &mut islands, &mut colliders, &mut impulse_joints, &mut multibody_joints, true);

    sync_robot_geometry(&mut entities, &bodies, &same());

    assert_eq!(entities.len(), 3);
    assert_eq!(translation(&entities[0].transform), (1.0, 0.0, 0.0));
    assert_eq!(entities[1].transform, resting());
    assert_eq!(translation(&entities[2].transform), (3.0, 0.0, 0.0));
    for (link, (entity, raw)) in entities.iter().zip([a, b, c]).enumerate() {
        assert_eq!(entity.link, link);
        assert_eq!(entity.body, handle_of(raw));
        assert!(matches!(entity.mesh, VisualMesh::Sphere { .. }));
    }

    bodies.get_mut(a).unwrap().set_translation(Vector::new(-4.0, 5.0, 6.0), true);
    sync_robot_geometry(&mut entities, &bodies, &same());
    assert_eq!(translation(&entities[0].transform), (-4.0, 5.0, 6.0));
    assert_eq!(entities[1].transform, resting());
    assert_eq!(translation(&entities[2].transform), (3.0, 0.0, 0.0));
}

#[test]
fn repeated_sync_of_a_resting_body_is_bit_identical() {
    let mut bodies = RigidBodySet::new();
    let raw = bodies.insert(
        RigidBodyBuilder::dynamic()
            .translation(Vector::new(0.1, -0.7, 2.5))
            .rotation(Vector::new(0.3, -0.2, 0.9))
            .build(),
    );
    let mut entities = vec![entity(0, handle_of(raw))];
    sync_robot_geometry(&mut entities, &bodies, &remap());
    let first = entities[0].transform;
    assert_ne!(first, resting());
    for _ in 0..100 {
        sync_robot_geometry(&mut entities, &bodies, &remap());
        assert_eq!(entities[0].transform, first);
    }
}

#[test]
fn remapped_pose_keeps_lengths() {
    let mut bodies = RigidBodySet::new();
    let raw = bodies.insert(
        RigidBodyBuilder::dynamic()
            .translation(Vector::new(3.0, 4.0, 12.0))
            .rotation(Vector::new(0.3, -0.2, 0.9))
            .build(),
    );
    let placed = place_link(handle_of(raw), &bodies, &remap()).unwrap();
    let (x, y, z) = translation(&placed);
    assert!(((x * x + y * y + z * z).sqrt() - 13.0).abs() < 1e-4);
    assert!(near3((x, y, z), (-3.0, 4.0, -12.0)));
    let (i, j, k, w) = quat_parts(placed.rotation);
    assert!((i * i + j * j + k * k + w * w - 1.0).abs() < 1e-5);
}

#[test]
fn sync_of_no_entities_does_nothing() {
    let bodies = RigidBodySet::new();
    let mut entities: Vec<LinkEntity> = Vec::new();
    sync_robot_geometry(&mut entities, &bodies, &same());
    assert!(entities.is_empty());
}

#[test]
fn conversion_turns_the_translation_and_composes_the_rotation() {
    let pose = Pose { translation: vec3(1.0, 2.0, 3.0), rotation: quat(1.0, 0.0, 0.0, 0.0) };
    let transform = convert_pose(&remap(), pose);
    assert!(near3(vec3_parts(transform.translation), (-1.0, 2.0, -3.0)));
    let (i, j, k, w) = quat_parts(transform.rotation);
    assert!(near3((i, j, k), (0.0, 0.0, -1.0)) && w.abs() < 1e-5);
}

#[test]
fn conversion_uses_the_fixed_rotation_on_the_left() {
    let seen_compose = |a: Quaternion, b: Quaternion| Quaternion { i: a.i, j: a.j, k: b.k, w: b.w };
    let seen_rotate = |q: Quaternion, v: Vector3| Vector3 { x: q.i, y: q.w, z: v.z };
    let remap = FrameRemap { compose: seen_compose, rotate: seen_rotate };
    let pose = Pose {
        translation: Vector3 { x: 10, y: 20, z: 30 },
        rotation: Quaternion { i: 5, j: 6, k: 7, w: 8 },
    };
    let transform = convert_pose(&remap, pose);
    assert_eq!(transform.rotation, Quaternion { i: 0, j: ONE, k: 7, w: 8 });
    assert_eq!(transform.translation, Vector3 { x: 0, y: QUARTER_TURN_COSINE, z: 30 });
}

#[test]
fn fixed_rotations_are_half_turns_in_single_precision() {
    let half = std::f32::consts::PI * 0.5;
    let (sine, cosine) = (half.sin(), half.cos());
    assert_eq!(f32::from_bits(ONE), 1.0);
    assert_eq!(sine.to_bits(), ONE);
    assert_eq!(cosine.to_bits(), QUARTER_TURN_COSINE);
    assert_eq!(quat_parts(fixed_remap()), (0.0, sine, 0.0, cosine));
    let root = root_correction();
    assert_eq!(quat_parts(root.rotation), (sine, 0.0, 0.0, cosine));
    assert_eq!(vec3_parts(root.translation), (0.0, 0.0, 0.0));
}

#[test]
fn equal_poses_give_equal_transforms_whatever_stood_before() {
    let mut bodies = RigidBodySet::new();
    let build = || {
        RigidBodyBuilder::dynamic()
            .translation(Vector::new(0.5, 1.5, -2.5))
            .rotation(Vector::new(0.1, 0.2, 0.3))
            .build()
    };
    let a = bodies.insert(build());
    let b = bodies.insert(build());
    let mut first = entity(0, handle_of(a));
    first.transform = Transform { translation: vec3(9.0, 9.0, 9.0), rotation: quat(1.0, 0.0, 0.0, 0.0) };
    let second = entity(1, handle_of(b));
    let mut entities = vec![first, second];
    sync_robot_geometry(&mut entities, &bodies, &remap());
    assert_eq!(entities[0].transform, entities[1].transform);
    assert_ne!(entities[0].transform, resting());
}
