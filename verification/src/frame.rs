//! Frame sync: carrying the pose of each physics body over to the link
//! entity that is drawn for it.
//!
//! The physics convention and the renderer's differ by a fixed rotation,
//! [`half_turn_about_up`]. A pose crosses over by [`convert_pose`]: the fixed
//! rotation turns the translation, and composed on the left of the body's
//! rotation it gives the entity's rotation. The two products are arithmetic
//! on real numbers; they are handed in by the caller as a [`FrameRemap`].
//! Initial placement and the per-tick sync both go through [`place_link`],
//! so a link is never placed by two different conversions.

use vstd::prelude::*;
use crate::physics::body_poses;
use crate::physics::lookup_pose;
use crate::physics::BodyHandle;
use crate::physics::Pose;
use crate::physics::Quaternion;
use crate::physics::Vector3;
use crate::visual::VisualMesh;

verus! {

/// A placement in the renderer's convention. Its components are bit
/// patterns, so two transforms are equal exactly when they are bit-identical.
#[derive(Clone, Copy, Debug, PartialEq, Eq, Structural)]
pub struct Transform {
    pub translation: Vector3,
    pub rotation: Quaternion,
}

/// The arithmetic of the change of axes: the product `compose` of two
/// rotations, and the action `rotate` of a rotation on a vector.
pub struct FrameRemap<C, R> {
    pub compose: C,
    pub rotate: R,
}

/// The number one in single precision, which is also the sine of a quarter
/// turn there.
pub const ONE: u32 = 0x3f80_0000;

/// The cosine of a quarter turn in single precision: that of half the
/// single-precision value of pi, which falls just short of zero.
pub const QUARTER_TURN_COSINE: u32 = 0xb33b_bd2e;

/// Half a turn about the renderer's up axis, the second: the rotation that
/// carries the physics convention over to the renderer's.
pub open spec fn half_turn_about_up() -> Quaternion {
    Quaternion { i: 0, j: ONE, k: 0, w: QUARTER_TURN_COSINE }
}

/// Half a turn about the first axis: the rotation of the entity that the
/// link entities of a robot hang under.
pub open spec fn half_turn_about_first() -> Quaternion {
    Quaternion { i: ONE, j: 0, k: 0, w: QUARTER_TURN_COSINE }
}

/// Where the entity stands that the link entities of a robot hang under: at
/// the origin, half a turn about the first axis.
pub open spec fn root_placement() -> Transform {
    Transform { translation: Vector3 { x: 0, y: 0, z: 0 }, rotation: half_turn_about_first() }
}

/// The physics body that a link entity follows.
#[derive(Clone, Copy, Debug, PartialEq, Eq, Structural)]
pub struct UrdfRobotRigidBodyHandle(pub BodyHandle);

/// What is drawn for one link: its mesh, the body it follows, and where it
/// currently stands.
#[derive(Debug)]
pub struct LinkEntity {
    pub link: usize,
    pub mesh: VisualMesh,
    pub body: UrdfRobotRigidBodyHandle,
    pub transform: Transform,
}

/// Both products of the remap accept every argument.
pub open spec fn accepts_all<
    C: Fn(Quaternion, Quaternion) -> Quaternion,
    R: Fn(Quaternion, Vector3) -> Vector3,
>(remap: FrameRemap<C, R>) -> bool {
    &&& forall|a: Quaternion, b: Quaternion| call_requires(remap.compose, (a, b))
    &&& forall|q: Quaternion, v: Vector3| call_requires(remap.rotate, (q, v))
}

/// Both products of the remap give one result for each pair of arguments.
pub open spec fn single_valued<
    C: Fn(Quaternion, Quaternion) -> Quaternion,
    R: Fn(Quaternion, Vector3) -> Vector3,
>(remap: FrameRemap<C, R>) -> bool {
    &&& forall|a: Quaternion, b: Quaternion, p: Quaternion, q: Quaternion|
        call_ensures(remap.compose, (a, b), p) && call_ensures(remap.compose, (a, b), q) ==> p
            == q
    &&& forall|a: Quaternion, v: Vector3, p: Vector3, q: Vector3|
        call_ensures(remap.rotate, (a, v), p) && call_ensures(remap.rotate, (a, v), q) ==> p == q
}

/// `transform` is `pose` in the renderer's convention: its translation is the
/// fixed rotation applied to the pose's translation, and its rotation is the
/// fixed rotation composed on the left of the pose's rotation.
pub open spec fn converts<
    C: Fn(Quaternion, Quaternion) -> Quaternion,
    R: Fn(Quaternion, Vector3) -> Vector3,
>(remap: FrameRemap<C, R>, pose: Pose, transform: Transform) -> bool {
    &&& call_ensures(remap.rotate, (half_turn_about_up(), pose.translation), transform.translation)
    &&& call_ensures(remap.compose, (half_turn_about_up(), pose.rotation), transform.rotation)
}

/// `after` is what a sync makes of `before`: where the body is live, the
/// conversion of its current pose; where it is not, `before` itself.
pub open spec fn placed<
    C: Fn(Quaternion, Quaternion) -> Quaternion,
    R: Fn(Quaternion, Vector3) -> Vector3,
>(
    remap: FrameRemap<C, R>,
    poses: Map<BodyHandle, Pose>,
    body: BodyHandle,
    before: Transform,
    after: Transform,
) -> bool {
    if poses.dom().contains(body) {
        converts(remap, poses[body], after)
    } else {
        after == before
    }
}

/// `after` is the entity `before` after one sync: the same link, mesh and
/// body, placed anew.
pub open spec fn entity_synced<
    C: Fn(Quaternion, Quaternion) -> Quaternion,
    R: Fn(Quaternion, Vector3) -> Vector3,
>(
    remap: FrameRemap<C, R>,
    poses: Map<BodyHandle, Pose>,
    before: LinkEntity,
    after: LinkEntity,
) -> bool {
    &&& after.link == before.link
    &&& after.mesh == before.mesh
    &&& after.body == before.body
    &&& placed(remap, poses, before.body.0, before.transform, after.transform)
}

/// `after` is the list `before` after one sync of every entity.
pub open spec fn all_synced<
    C: Fn(Quaternion, Quaternion) -> Quaternion,
    R: Fn(Quaternion, Vector3) -> Vector3,
>(
    remap: FrameRemap<C, R>,
    poses: Map<BodyHandle, Pose>,
    before: Seq<LinkEntity>,
    after: Seq<LinkEntity>,
) -> bool {
    &&& after.len() == before.len()
    &&& forall|e: int|
        0 <= e < before.len() ==> entity_synced(remap, poses, before[e], #[trigger] after[e])
}

/// The fixed rotation between the two conventions.
pub fn fixed_remap() -> (fix: Quaternion)
    ensures
        fix == half_turn_about_up(),
{
    Quaternion { i: 0, j: ONE, k: 0, w: QUARTER_TURN_COSINE }
}

/// The placement of the entity that the link entities of a robot hang under.
pub fn root_correction() -> (root: Transform)
    ensures
        root == root_placement(),
{
    Transform {
        translation: Vector3 { x: 0, y: 0, z: 0 },
        rotation: Quaternion { i: ONE, j: 0, k: 0, w: QUARTER_TURN_COSINE },
    }
}

/// Carries a pose from the physics convention over to the renderer's.
pub fn convert_pose<
    C: Fn(Quaternion, Quaternion) -> Quaternion,
    R: Fn(Quaternion, Vector3) -> Vector3,
>(remap: &FrameRemap<C, R>, pose: Pose) -> (transform: Transform)
    requires
        accepts_all(*remap),
    ensures
        converts(*remap, pose, transform),
{
    let fix = fixed_remap();
    let translation = (remap.rotate)(fix, pose.translation);
    let rotation = (remap.compose)(fix, pose.rotation);
    Transform { translation, rotation }
}

/// Where the entity that follows `body` is to stand now: the conversion of
/// the body's current pose, or `None` when the handle no longer resolves to a
/// live body and the entity stays where it is.
pub fn place_link<
    C: Fn(Quaternion, Quaternion) -> Quaternion,
    R: Fn(Quaternion, Vector3) -> Vector3,
>(
    body: UrdfRobotRigidBodyHandle,
    bodies: &rapier3d::dynamics::RigidBodySet,
    remap: &FrameRemap<C, R>,
) -> (placement: Option<Transform>)
    requires
        accepts_all(*remap),
    ensures
        placement.is_some() == body_poses(*bodies).dom().contains(body.0),
        placement matches Some(transform) ==> converts(
            *remap,
            body_poses(*bodies)[body.0],
            transform,
        ),
{
    match lookup_pose(bodies, body.0) {
        Some(pose) => Some(convert_pose(remap, pose)),
        None => None,
    }
}

/// One tick of frame sync: every entity whose body is live is moved to the
/// conversion of that body's current pose; every other entity is left as it
/// was. No entity changes its link, its mesh or the body it follows.
pub fn sync_robot_geometry<
    C: Fn(Quaternion, Quaternion) -> Quaternion,
    R: Fn(Quaternion, Vector3) -> Vector3,
>(
    entities: &mut Vec<LinkEntity>,
    bodies: &rapier3d::dynamics::RigidBodySet,
    remap: &FrameRemap<C, R>,
)
    requires
        accepts_all(*remap),
    ensures
        all_synced(*remap, body_poses(*bodies), old(entities)@, final(entities)@),
{
    let ghost before = entities@;
    let mut e: usize = 0;
    while e < entities.len()
        invariant
            accepts_all(*remap),
            e <= entities@.len(),
            entities@.len() == before.len(),
            forall|k: int|
                0 <= k < e ==> entity_synced(
                    *remap,
                    body_poses(*bodies),
                    before[k],
                    #[trigger] entities@[k],
                ),
            forall|k: int| e <= k < before.len() ==> #[trigger] entities@[k] == before[k],
        decreases entities@.len() - e,
    {
        let body = entities[e].body;
        match place_link(body, bodies, remap) {
            Some(transform) => {
                entities[e].transform = transform;
            },
            None => {},
        }
        e += 1;
    }
}

/// Syncing again while no body has moved changes nothing: the second sync
/// leaves every entity bit for bit where the first one put it.
pub proof fn lemma_sync_is_stable<
    C: Fn(Quaternion, Quaternion) -> Quaternion,
    R: Fn(Quaternion, Vector3) -> Vector3,
>(
    remap: FrameRemap<C, R>,
    poses: Map<BodyHandle, Pose>,
    start: Seq<LinkEntity>,
    once: Seq<LinkEntity>,
    twice: Seq<LinkEntity>,
)
    requires
        single_valued(remap),
        all_synced(remap, poses, start, once),
        all_synced(remap, poses, once, twice),
    ensures
        twice == once,
{
    assert forall|e: int| 0 <= e < once.len() implies twice[e] == once[e] by {
        assert(entity_synced(remap, poses, start[e], once[e]));
        assert(entity_synced(remap, poses, once[e], twice[e]));
    }
    assert(twice =~= once);
}

/// A sync forgets where an entity stood: two entities whose bodies are live
/// and have the same pose stand bit for bit alike afterwards, wherever each
/// stood before.
pub proof fn lemma_sync_forgets_prior_transform<
    C: Fn(Quaternion, Quaternion) -> Quaternion,
    R: Fn(Quaternion, Vector3) -> Vector3,
>(
    remap: FrameRemap<C, R>,
    poses: Map<BodyHandle, Pose>,
    before_a: LinkEntity,
    after_a: LinkEntity,
    before_b: LinkEntity,
    after_b: LinkEntity,
)
    requires
        single_valued(remap),
        entity_synced(remap, poses, before_a, after_a),
        entity_synced(remap, poses, before_b, after_b),
        poses.dom().contains(before_a.body.0),
        poses.dom().contains(before_b.body.0),
        poses[before_a.body.0] == poses[before_b.body.0],
    ensures
        after_a.transform == after_b.transform,
{
}

/// Two syncs from the same entities over the same poses agree bit for bit,
/// whenever they run.
pub proof fn lemma_sync_is_reproducible<
    C: Fn(Quaternion, Quaternion) -> Quaternion,
    R: Fn(Quaternion, Vector3) -> Vector3,
>(
    remap: FrameRemap<C, R>,
    poses: Map<BodyHandle, Pose>,
    start: Seq<LinkEntity>,
    first: Seq<LinkEntity>,
    second: Seq<LinkEntity>,
)
    requires
        single_valued(remap),
        all_synced(remap, poses, start, first),
        all_synced(remap, poses, start, second),
    ensures
        first == second,
{
    assert forall|e: int| 0 <= e < first.len() implies first[e] == second[e] by {
        assert(entity_synced(remap, poses, start[e], first[e]));
        assert(entity_synced(remap, poses, start[e], second[e]));
    }
    assert(first =~= second);
}

} // verus!
