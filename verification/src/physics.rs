//! The rigid-body side: body handles, poses, and what the crate reads off the
//! physics engine's tables and off a multibody template.
//!
//! The engine's tables are opaque here. What the crate knows of a body set is
//! [`body_poses`]: which handles are live and the pose of each. What it knows
//! of a joint table is [`jointed_bodies`] and [`self_contacts`]. What it
//! knows of a multibody template is [`template_colliders`],
//! [`template_joints`] and [`template_joint_axes`].
//!
//! A template is vetted by [`check_template`]: its joints must name links it
//! has, lock nothing but their six axes, and make trees of the links.
//!
//! The crate does not put a template into the tables itself. Whether that
//! call of the engine returns rests on arithmetic over the template's masses
//! and on the code of its colliders' shapes, which nothing here can vouch
//! for. The caller makes the call, after [`check_template`] has let the
//! template through, and hands back what the engine gave: [`Inserted`]. The
//! crate then holds that against the tables.

use vstd::prelude::*;
use crate::error::SpawnError;

verus! {

/// Identifies one rigid body: a slot in the engine's body table and the
/// generation of that slot.
#[derive(Clone, Copy, Debug, PartialEq, Eq, Structural)]
pub struct BodyHandle {
    pub index: u32,
    pub generation: u32,
}

/// Three single-precision components, each as its bit pattern.
#[derive(Clone, Copy, Debug, PartialEq, Eq, Structural)]
pub struct Vector3 {
    pub x: u32,
    pub y: u32,
    pub z: u32,
}

/// A quaternion `(i, j, k, w)` of single-precision components, each as its
/// bit pattern.
#[derive(Clone, Copy, Debug, PartialEq, Eq, Structural)]
pub struct Quaternion {
    pub i: u32,
    pub j: u32,
    pub k: u32,
    pub w: u32,
}

/// A rigid transform in the physics convention. Its components are bit
/// patterns, so two poses are equal exactly when they are bit-identical.
#[derive(Clone, Copy, Debug, PartialEq, Eq, Structural)]
pub struct Pose {
    pub translation: Vector3,
    pub rotation: Quaternion,
}

/// The option bit that switches off contacts between the links of one robot.
pub const DISABLE_SELF_CONTACTS: u8 = 2;

/// The bits of a joint's locked axes that stand for no axis: a joint has
/// three linear and three angular axes, one bit each from the lowest up.
pub const NO_AXIS: u8 = 0xc0;

/// What the engine gave when a template was put into its tables: the handle
/// of the body made for each link, in link order, and for each joint, in
/// joint order, whether the joint table took it.
#[derive(Debug)]
pub struct Inserted {
    pub bodies: Vec<BodyHandle>,
    pub joints: Vec<bool>,
}

#[verifier::external_type_specification]
#[verifier::external_body]
pub struct ExRigidBodySet(rapier3d::dynamics::RigidBodySet);

#[verifier::external_type_specification]
#[verifier::external_body]
pub struct ExMultibodyJointSet(rapier3d::dynamics::MultibodyJointSet);

#[verifier::external_type_specification]
#[verifier::external_body]
pub struct ExUrdfRobot(rapier3d_urdf::UrdfRobot);

/// The bodies that a body set holds: each live handle with its body's pose.
pub uninterp spec fn body_poses(bodies: rapier3d::dynamics::RigidBodySet) -> Map<BodyHandle, Pose>;

/// The handles for which a joint table holds a link entry, whether or not
/// the multibody that the entry names is still there.
pub uninterp spec fn jointed_bodies(joints: rapier3d::dynamics::MultibodyJointSet) -> Set<
    BodyHandle,
>;

/// For each handle whose link entry names a multibody that is there: whether
/// that multibody lets its own links touch each other.
pub uninterp spec fn self_contacts(joints: rapier3d::dynamics::MultibodyJointSet) -> Map<
    BodyHandle,
    bool,
>;

/// The links of a multibody template, in link order, each given by the
/// number of colliders attached to it.
pub uninterp spec fn template_colliders(template: rapier3d_urdf::UrdfRobot) -> Seq<usize>;

/// The joints of a multibody template, in joint order, each given by the
/// indices of the two links it connects.
pub uninterp spec fn template_joints(template: rapier3d_urdf::UrdfRobot) -> Seq<(usize, usize)>;

/// The joints of a multibody template, in joint order, each given by the
/// bits of its locked axes.
pub uninterp spec fn template_joint_axes(template: rapier3d_urdf::UrdfRobot) -> Seq<u8>;

/// Every joint of the template connects two of the template's own links.
pub open spec fn joints_in_range(template: rapier3d_urdf::UrdfRobot) -> bool {
    forall|j: int|
        0 <= j < template_joints(template).len() ==> {
            &&& (#[trigger] template_joints(template)[j]).0 < template_colliders(template).len()
            &&& template_joints(template)[j].1 < template_colliders(template).len()
        }
}

/// Every joint of the template locks axes among its six only.
pub open spec fn axes_in_range(template: rapier3d_urdf::UrdfRobot) -> bool {
    forall|j: int|
        0 <= j < template_joint_axes(template).len() ==> (#[trigger] template_joint_axes(
            template,
        )[j]) & NO_AXIS == 0
}

/// How the links hang together after some joints: for each link the tree it
/// is in, named by one of the tree's links, and whether the link hangs under
/// another.
pub struct Forest {
    pub tree: Seq<usize>,
    pub hangs: Seq<bool>,
}

/// The forest that the first `upto` joints make of `links` links, each joint
/// hanging its second link under its first; or `None` if one of those joints
/// would close a loop or give a link a second link to hang under.
pub open spec fn forest_after(joints: Seq<(usize, usize)>, links: nat, upto: nat) -> Option<
    Forest,
>
    decreases upto,
{
    if upto == 0 {
        Some(
            Forest {
                tree: Seq::new(links, |k: int| k as usize),
                hangs: Seq::new(links, |k: int| false),
            },
        )
    } else {
        match forest_after(joints, links, (upto - 1) as nat) {
            None => None,
            Some(forest) => {
                let over = joints[upto - 1].0 as int;
                let under = joints[upto - 1].1 as int;
                if forest.tree[over] == forest.tree[under] || forest.hangs[under] {
                    None
                } else {
                    Some(
                        Forest {
                            tree: Seq::new(
                                links,
                                |k: int|
                                    if forest.tree[k] == forest.tree[under] {
                                        forest.tree[over]
                                    } else {
                                        forest.tree[k]
                                    },
                            ),
                            hangs: forest.hangs.update(under, true),
                        },
                    )
                }
            },
        }
    }
}

/// The joints of the template make trees of its links.
pub open spec fn joints_form_trees(template: rapier3d_urdf::UrdfRobot) -> bool {
    forest_after(
        template_joints(template),
        template_colliders(template).len(),
        template_joints(template).len(),
    ) is Some
}

/// Why a template is not to be handed to the engine, if it is not: a joint
/// that names a link the template does not have, which the engine would look
/// up in vain; else a joint that locks what is no axis, from which the engine
/// would count fewer than no freedoms; else joints that make no trees of the
/// links, which a robot's joints are to make.
pub open spec fn template_refusal(template: rapier3d_urdf::UrdfRobot) -> Option<SpawnError> {
    if !joints_in_range(template) {
        Some(SpawnError::JointOutOfRange)
    } else if !axes_in_range(template) {
        Some(SpawnError::JointAxesOutOfRange)
    } else if !joints_form_trees(template) {
        Some(SpawnError::JointsNoTree)
    } else {
        None
    }
}

/// Once the joints have failed to make a forest, more joints do not mend it.
pub proof fn lemma_forest_stays_broken(
    joints: Seq<(usize, usize)>,
    links: nat,
    at: nat,
    upto: nat,
)
    requires
        at <= upto,
        forest_after(joints, links, at) is None,
    ensures
        forest_after(joints, links, upto) is None,
    decreases upto,
{
    if at < upto {
        lemma_forest_stays_broken(joints, links, at, (upto - 1) as nat);
    }
}

/// The option bits ask for contacts between the links of one robot to be
/// switched off.
pub open spec fn disables_self_contacts(options: u8) -> bool {
    options & DISABLE_SELF_CONTACTS != 0
}

/// Every one of `handles` is a live body of the set.
pub open spec fn all_live(poses: Map<BodyHandle, Pose>, handles: Seq<BodyHandle>) -> bool {
    forall|i: int| 0 <= i < handles.len() ==> poses.dom().contains(#[trigger] handles[i])
}

/// No handle occurs twice among `handles`.
pub open spec fn all_distinct(handles: Seq<BodyHandle>) -> bool {
    forall|i: int, j: int| 0 <= i < j < handles.len() ==> handles[i] != handles[j]
}

/// The joint between the links `ends` was taken by the joint table, and both
/// links, as `bodies` has them, have link entries there.
pub open spec fn joint_held(
    joints: rapier3d::dynamics::MultibodyJointSet,
    bodies: Seq<BodyHandle>,
    ends: (usize, usize),
    taken: bool,
) -> bool {
    &&& taken
    &&& jointed_bodies(joints).contains(bodies[ends.0 as int])
    &&& jointed_bodies(joints).contains(bodies[ends.1 as int])
}

/// Every joint of the template was taken by the joint table, and both of its
/// ends, as `bodies` has them, are links of a multibody there.
pub open spec fn fully_jointed(
    template: rapier3d_urdf::UrdfRobot,
    joints: rapier3d::dynamics::MultibodyJointSet,
    bodies: Seq<BodyHandle>,
    taken: Seq<bool>,
) -> bool {
    &&& taken.len() == template_joints(template).len()
    &&& forall|j: int|
        0 <= j < taken.len() ==> joint_held(
            joints,
            bodies,
            #[trigger] template_joints(template)[j],
            taken[j],
        )
}

/// Each of `bodies` that the joint table has joined into a multibody belongs
/// to one whose self-contacts are on or off as `enabled` says.
pub open spec fn self_contacts_set(
    joints: rapier3d::dynamics::MultibodyJointSet,
    bodies: Seq<BodyHandle>,
    enabled: bool,
) -> bool {
    forall|i: int|
        0 <= i < bodies.len() && self_contacts(joints).dom().contains(#[trigger] bodies[i])
            ==> self_contacts(joints)[bodies[i]] == enabled
}

/// `MultibodyJointSet::rigid_body_link`: whether the joint table holds a
/// link entry for `handle`.
#[verifier::external_body]
pub(crate) fn has_link(joints: &rapier3d::dynamics::MultibodyJointSet, handle: BodyHandle) -> (found:
    bool)
    ensures
        found == jointed_bodies(*joints).contains(handle),
{
    let raw = rapier3d::dynamics::RigidBodyHandle::from_raw_parts(handle.index, handle.generation);
    joints.rigid_body_link(raw).is_some()
}

/// `MultibodyJointSet::rigid_body_link`, `MultibodyJointSet::get_multibody`
/// and `Multibody::self_contacts_enabled`: whether the multibody that
/// `handle` is a link of lets its links touch each other, or nothing when
/// there is no such multibody.
#[verifier::external_body]
pub(crate) fn lookup_self_contacts(
    joints: &rapier3d::dynamics::MultibodyJointSet,
    handle: BodyHandle,
) -> (enabled: Option<bool>)
    ensures
        enabled == if self_contacts(*joints).dom().contains(handle) {
            Some(self_contacts(*joints)[handle])
        } else {
            None::<bool>
        },
{
    let raw = rapier3d::dynamics::RigidBodyHandle::from_raw_parts(handle.index, handle.generation);
    joints
        .rigid_body_link(raw)
        .and_then(|link| joints.get_multibody(link.multibody))
        .map(|multibody| multibody.self_contacts_enabled())
}

/// `RigidBodySet::get` followed by `RigidBody::position`: the pose of the
/// body behind `handle`, component by component as bits, or nothing when the
/// handle is not live in the set.
#[verifier::external_body]
pub(crate) fn lookup_pose(bodies: &rapier3d::dynamics::RigidBodySet, handle: BodyHandle) -> (pose:
    Option<Pose>)
    ensures
        pose == if body_poses(*bodies).dom().contains(handle) {
            Some(body_poses(*bodies)[handle])
        } else {
            None::<Pose>
        },
{
    let raw = rapier3d::dynamics::RigidBodyHandle::from_raw_parts(handle.index, handle.generation);
    bodies.get(raw).map(|body| {
        let p = body.position();
        let (t, r) = (p.translation, p.rotation);
        Pose {
            translation: Vector3 { x: t.x.to_bits(), y: t.y.to_bits(), z: t.z.to_bits() },
            rotation: Quaternion {
                i: r.i.to_bits(),
                j: r.j.to_bits(),
                k: r.k.to_bits(),
                w: r.w.to_bits(),
            },
        }
    })
}

/// Reads `UrdfRobot::links`: for each link of the template, in order, how
/// many colliders hang on it.
#[verifier::external_body]
pub(crate) fn collider_counts(template: &rapier3d_urdf::UrdfRobot) -> (counts: Vec<usize>)
    ensures
        counts@ == template_colliders(*template),
{
    template.links.iter().map(|link| link.colliders.len()).collect()
}

/// Reads `UrdfRobot::joints`: for each joint of the template, in order, the
/// indices of its first and second link.
#[verifier::external_body]
pub(crate) fn joint_links(template: &rapier3d_urdf::UrdfRobot) -> (ends: Vec<(usize, usize)>)
    ensures
        ends@ == template_joints(*template),
{
    template.joints.iter().map(|joint| (joint.link1, joint.link2)).collect()
}

/// Reads `GenericJoint::locked_axes` of each joint of the template, in
/// order, as bits.
#[verifier::external_body]
pub(crate) fn joint_axes(template: &rapier3d_urdf::UrdfRobot) -> (axes: Vec<u8>)
    ensures
        axes@ == template_joint_axes(*template),
{
    template.joints.iter().map(|joint| joint.joint.locked_axes.bits()).collect()
}

/// The number of links in a multibody template.
pub fn template_link_count(template: &rapier3d_urdf::UrdfRobot) -> (count: usize)
    ensures
        count == template_colliders(*template).len(),
{
    collider_counts(template).len()
}

/// The number of joints in a multibody template.
pub fn template_joint_count(template: &rapier3d_urdf::UrdfRobot) -> (count: usize)
    ensures
        count == template_joints(*template).len(),
{
    joint_links(template).len()
}

/// Decides whether every joint of the template connects two of its own
/// links.
pub fn check_joints(template: &rapier3d_urdf::UrdfRobot) -> (ok: bool)
    ensures
        ok == joints_in_range(*template),
{
    let count = template_link_count(template);
    let ends = joint_links(template);
    let mut j: usize = 0;
    while j < ends.len()
        invariant
            j <= ends.len(),
            ends@ == template_joints(*template),
            count == template_colliders(*template).len(),
            forall|k: int|
                0 <= k < j ==> (#[trigger] ends@[k]).0 < count && ends@[k].1 < count,
        decreases ends.len() - j,
    {
        let (first, second) = ends[j];
        if first >= count || second >= count {
            return false;
        }
        j += 1;
    }
    true
}

/// Decides whether every joint of the template locks axes among its six
/// only.
pub fn check_joint_axes(template: &rapier3d_urdf::UrdfRobot) -> (ok: bool)
    ensures
        ok == axes_in_range(*template),
{
    let axes = joint_axes(template);
    let mut j: usize = 0;
    while j < axes.len()
        invariant
            j <= axes@.len(),
            axes@ == template_joint_axes(*template),
            forall|k: int| 0 <= k < j ==> (#[trigger] axes@[k]) & NO_AXIS == 0,
        decreases axes@.len() - j,
    {
        if axes[j] & NO_AXIS != 0 {
            return false;
        }
        j += 1;
    }
    true
}

/// Decides whether the joints of the template make trees of its links.
pub fn check_trees(template: &rapier3d_urdf::UrdfRobot) -> (ok: bool)
    requires
        joints_in_range(*template),
    ensures
        ok == joints_form_trees(*template),
{
    let links = template_link_count(template);
    let ends = joint_links(template);
    let mut tree: Vec<usize> = Vec::new();
    let mut hangs: Vec<bool> = Vec::new();
    let mut k: usize = 0;
    while k < links
        invariant
            k <= links,
            tree@.len() == k,
            hangs@.len() == k,
            forall|n: int| 0 <= n < k ==> #[trigger] tree@[n] == n as usize,
            forall|n: int| 0 <= n < k ==> !#[trigger] hangs@[n],
        decreases links - k,
    {
        tree.push(k);
        hangs.push(false);
        k += 1;
    }
    assert(forest_after(ends@, links as nat, 0) == Some(Forest { tree: tree@, hangs: hangs@ })) by {
        let start = forest_after(ends@, links as nat, 0).unwrap();
        assert(start.tree =~= tree@);
        assert(start.hangs =~= hangs@);
    }
    let mut j: usize = 0;
    while j < ends.len()
        invariant
            j <= ends@.len(),
            ends@ == template_joints(*template),
            links == template_colliders(*template).len(),
            joints_in_range(*template),
            tree@.len() == links,
            hangs@.len() == links,
            forest_after(ends@, links as nat, j as nat) == Some(
                Forest { tree: tree@, hangs: hangs@ },
            ),
        decreases ends@.len() - j,
    {
        let over = ends[j].0;
        let under = ends[j].1;
        assert(template_joints(*template)[j as int] == ends@[j as int]);
        let ghost before = Forest { tree: tree@, hangs: hangs@ };
        if tree[over] == tree[under] || hangs[under] {
            proof {
                assert(forest_after(ends@, links as nat, (j + 1) as nat) is None);
                lemma_forest_stays_broken(ends@, links as nat, (j + 1) as nat, ends@.len());
            }
            return false;
        }
        let into = tree[over];
        let from = tree[under];
        let mut n: usize = 0;
        while n < links
            invariant
                n <= links,
                tree@.len() == links,
                before.tree.len() == links,
                into == before.tree[over as int],
                from == before.tree[under as int],
                over < links,
                under < links,
                forall|m: int|
                    0 <= m < n ==> #[trigger] tree@[m] == if before.tree[m] == from {
                        into
                    } else {
                        before.tree[m]
                    },
                forall|m: int| n <= m < links ==> #[trigger] tree@[m] == before.tree[m],
            decreases links - n,
        {
            if tree[n] == from {
                tree[n] = into;
            }
            n += 1;
        }
        hangs[under] = true;
        proof {
            let next = forest_after(ends@, links as nat, (j + 1) as nat);
            assert(forest_after(ends@, links as nat, j as nat) == Some(before));
            assert(next is Some);
            assert(next.unwrap().tree =~= tree@);
            assert(next.unwrap().hangs =~= hangs@);
        }
        j += 1;
    }
    true
}

/// Vets a template before it is handed to the engine.
pub fn check_template(template: &rapier3d_urdf::UrdfRobot) -> (refusal: Option<SpawnError>)
    ensures
        refusal == template_refusal(*template),
{
    if !check_joints(template) {
        Some(SpawnError::JointOutOfRange)
    } else if !check_joint_axes(template) {
        Some(SpawnError::JointAxesOutOfRange)
    } else if !check_trees(template) {
        Some(SpawnError::JointsNoTree)
    } else {
        None
    }
}

/// The option bits for putting a template into the tables: contacts between
/// the robot's own links off or on, and nothing else asked for.
pub fn multibody_options(disable_self_contacts: bool) -> (options: u8)
    ensures
        disables_self_contacts(options) == disable_self_contacts,
        options == if disable_self_contacts {
            DISABLE_SELF_CONTACTS
        } else {
            0u8
        },
{
    assert(2u8 & 2u8 != 0) by (bit_vector);
    assert(0u8 & 2u8 == 0) by (bit_vector);
    if disable_self_contacts {
        DISABLE_SELF_CONTACTS
    } else {
        0
    }
}

/// Decides whether every one of `handles` is a live body of the set.
pub fn bodies_live(bodies: &rapier3d::dynamics::RigidBodySet, handles: &Vec<BodyHandle>) -> (live:
    bool)
    ensures
        live == all_live(body_poses(*bodies), handles@),
{
    let mut i: usize = 0;
    while i < handles.len()
        invariant
            i <= handles@.len(),
            forall|k: int|
                0 <= k < i ==> body_poses(*bodies).dom().contains(#[trigger] handles@[k]),
        decreases handles@.len() - i,
    {
        if lookup_pose(bodies, handles[i]).is_none() {
            return false;
        }
        i += 1;
    }
    true
}

/// Decides whether no handle occurs twice among `handles`.
pub fn bodies_distinct(handles: &Vec<BodyHandle>) -> (distinct: bool)
    ensures
        distinct == all_distinct(handles@),
{
    let mut j: usize = 0;
    while j < handles.len()
        invariant
            j <= handles@.len(),
            forall|a: int, b: int| 0 <= a < b < j ==> handles@[a] != handles@[b],
        decreases handles@.len() - j,
    {
        let mut i: usize = 0;
        while i < j
            invariant
                i <= j,
                j < handles@.len(),
                forall|a: int| 0 <= a < i ==> handles@[a] != handles@[j as int],
            decreases j - i,
        {
            if handles[i] == handles[j] {
                return false;
            }
            i += 1;
        }
        j += 1;
    }
    true
}

/// For each of `bodies`, in order: whether the joint table holds a link
/// entry for it.
pub fn jointed_links(joints: &rapier3d::dynamics::MultibodyJointSet, bodies: &Vec<BodyHandle>) -> (found:
    Vec<bool>)
    ensures
        found@.len() == bodies@.len(),
        forall|i: int|
            0 <= i < bodies@.len() ==> #[trigger] found@[i] == jointed_bodies(*joints).contains(
                bodies@[i],
            ),
{
    let mut found: Vec<bool> = Vec::new();
    let mut i: usize = 0;
    while i < bodies.len()
        invariant
            i <= bodies@.len(),
            found@.len() == i,
            forall|k: int|
                0 <= k < i ==> #[trigger] found@[k] == jointed_bodies(*joints).contains(
                    bodies@[k],
                ),
        decreases bodies@.len() - i,
    {
        found.push(has_link(joints, bodies[i]));
        i += 1;
    }
    found
}

/// Decides whether the joint table took every joint of the template and
/// holds both ends of each as links.
pub fn check_jointed(
    template: &rapier3d_urdf::UrdfRobot,
    joints: &rapier3d::dynamics::MultibodyJointSet,
    inserted: &Inserted,
) -> (ok: bool)
    requires
        joints_in_range(*template),
        inserted.bodies@.len() == template_colliders(*template).len(),
    ensures
        ok == fully_jointed(*template, *joints, inserted.bodies@, inserted.joints@),
{
    let ends = joint_links(template);
    if inserted.joints.len() != ends.len() {
        return false;
    }
    let mut j: usize = 0;
    while j < ends.len()
        invariant
            j <= ends@.len(),
            ends@ == template_joints(*template),
            joints_in_range(*template),
            inserted.joints@.len() == ends@.len(),
            inserted.bodies@.len() == template_colliders(*template).len(),
            forall|k: int|
                0 <= k < j ==> joint_held(
                    *joints,
                    inserted.bodies@,
                    #[trigger] ends@[k],
                    inserted.joints@[k],
                ),
        decreases ends@.len() - j,
    {
        let first = ends[j].0;
        let second = ends[j].1;
        assert(template_joints(*template)[j as int] == ends@[j as int]);
        let taken = inserted.joints[j];
        let first_held = has_link(joints, inserted.bodies[first]);
        let second_held = has_link(joints, inserted.bodies[second]);
        if !taken || !first_held || !second_held {
            return false;
        }
        j += 1;
    }
    true
}

/// Decides whether every one of `bodies` that is a link of a multibody
/// belongs to one whose links cannot touch each other.
pub fn self_contacts_off(joints: &rapier3d::dynamics::MultibodyJointSet, bodies: &Vec<BodyHandle>) -> (off:
    bool)
    ensures
        off == self_contacts_set(*joints, bodies@, false),
{
    let mut i: usize = 0;
    while i < bodies.len()
        invariant
            i <= bodies@.len(),
            self_contacts_set(*joints, bodies@.take(i as int), false),
        decreases bodies@.len() - i,
    {
        match lookup_self_contacts(joints, bodies[i]) {
            Some(enabled) => {
                if enabled {
                    return false;
                }
            },
            None => {},
        }
        assert forall|k: int|
            0 <= k < i + 1 && self_contacts(*joints).dom().contains(
                #[trigger] bodies@.take(i + 1)[k],
            ) implies !self_contacts(*joints)[bodies@.take(i + 1)[k]] by {
            if k < i {
                assert(bodies@.take(i as int)[k] == bodies@.take(i + 1)[k]);
            }
        }
        i += 1;
    }
    assert(bodies@.take(bodies@.len() as int) =~= bodies@);
    true
}

} // verus!
