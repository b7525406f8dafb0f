//! Instantiation: turning a loaded robot into physics bodies and the link
//! entities that follow them.
//!
//! It goes in three steps. [`check_spawn`] vets the robot, before anything
//! is made. The caller then has the engine put the physics template into its
//! tables, with the option bits of [`spawn_options`]. [`instantiate`] holds
//! what the engine handed back against the tables and makes the link
//! entities.

use vstd::prelude::*;
use crate::description::extract_robot_geometry;
use crate::description::first_visual;
use crate::description::link_counts_agree;
use crate::description::drawn_links;
use crate::description::lemma_drawn_links;
use crate::description::Link;
use crate::description::UrdfAsset;
use crate::error::SpawnError;
use crate::frame::accepts_all;
use crate::frame::all_synced;
use crate::frame::converts;
use crate::frame::place_link;
use crate::frame::root_correction;
use crate::frame::root_placement;
use crate::frame::sync_robot_geometry;
use crate::frame::FrameRemap;
use crate::frame::LinkEntity;
use crate::frame::Transform;
use crate::frame::UrdfRobotRigidBodyHandle;
use crate::physics::all_distinct;
use crate::physics::all_live;
use crate::physics::bodies_distinct;
use crate::physics::bodies_live;
use crate::physics::body_poses;
use crate::physics::check_jointed;
use crate::physics::check_template;
use crate::physics::disables_self_contacts;
use crate::physics::fully_jointed;
use crate::physics::multibody_options;
use crate::physics::self_contacts_off;
use crate::physics::self_contacts_set;
use crate::physics::template_colliders;
use crate::physics::template_link_count;
use crate::physics::template_refusal;
use crate::physics::BodyHandle;
use crate::physics::Inserted;
use crate::physics::Pose;
use crate::physics::Quaternion;
use crate::physics::Vector3;
use crate::visual::mesh_for;
use crate::visual::resolve_mesh;
use crate::visual::VisualMesh;

verus! {

/// One spawned robot: where the entity stands that its link entities hang
/// under, whether it is drawn whatever the entities above it say, the body
/// made for each link, in link order, and the link entities, one for each
/// link that has geometry.
#[derive(Debug)]
pub struct RobotInstance {
    pub transform: Transform,
    pub always_visible: bool,
    pub bodies: Vec<BodyHandle>,
    pub children: Vec<LinkEntity>,
}

impl RobotInstance {
    /// Every entity belongs to a link of its own and follows the body of
    /// that link, the entities stand in link order, and no two links share a
    /// body. So there are never more entities than links.
    pub open spec fn well_formed(&self) -> bool {
        &&& self.children@.len() <= self.bodies@.len()
        &&& forall|c: int|
            0 <= c < self.children@.len() ==> {
                &&& (#[trigger] self.children@[c]).link < self.bodies@.len()
                &&& self.children@[c].body.0 == self.bodies@[self.children@[c].link as int]
            }
        &&& forall|c: int, d: int|
            0 <= c < d < self.children@.len() ==> self.children@[c].link < self.children@[d].link
        &&& all_distinct(self.bodies@)
    }

    /// One tick of frame sync for this robot: see [`sync_robot_geometry`].
    /// The bodies of the robot and the tie of each entity to its body stay
    /// as they are.
    pub fn sync<
        C: Fn(Quaternion, Quaternion) -> Quaternion,
        R: Fn(Quaternion, Vector3) -> Vector3,
    >(&mut self, bodies: &rapier3d::dynamics::RigidBodySet, remap: &FrameRemap<C, R>)
        requires
            old(self).well_formed(),
            accepts_all(*remap),
        ensures
            final(self).well_formed(),
            final(self).bodies == old(self).bodies,
            final(self).transform == old(self).transform,
            final(self).always_visible == old(self).always_visible,
            all_synced(*remap, body_poses(*bodies), old(self).children@, final(self).children@),
    {
        sync_robot_geometry(&mut self.children, bodies, remap);
    }
}

/// The link has geometry, and the geometry is of a kind that cannot be drawn.
pub open spec fn undrawable(link: Link, mesh_dir: Seq<char>) -> bool {
    first_visual(link) matches Some(geometry) && mesh_for(geometry, mesh_dir) is None
}

/// No link among the first `upto` is undrawable.
pub open spec fn drawable_before(links: Seq<Link>, mesh_dir: Seq<char>, upto: int) -> bool {
    forall|i: int| 0 <= i < upto && i < links.len() ==> !undrawable(#[trigger] links[i], mesh_dir)
}

/// The reason why `asset` is not to be instantiated, if there is one: a link
/// count that differs between description and template, else the first link
/// that cannot be drawn, else what the template is refused for.
pub open spec fn spawn_refusal(asset: UrdfAsset, mesh_dir: Seq<char>) -> Option<SpawnError> {
    let links = asset.robot.links@;
    let template = template_colliders(asset.urdf_robot).len();
    if links.len() != template {
        Some(
            SpawnError::LinkCountMismatch {
                description: links.len() as usize,
                template: template as usize,
            },
        )
    } else if !drawable_before(links, mesh_dir, links.len() as int) {
        Some(SpawnError::UnsupportedGeometry { link: first_undrawable(links, mesh_dir) as usize })
    } else {
        template_refusal(asset.urdf_robot)
    }
}

/// What is wrong with what the engine handed back for `asset`, if anything
/// is: not one body per link; else a body that is not in the body set; else
/// a body handed back twice; else a joint that the joint table did not take,
/// or whose ends it does not hold; else self-contacts that are not off.
pub open spec fn insertion_refusal(
    asset: UrdfAsset,
    inserted: Inserted,
    bodies: rapier3d::dynamics::RigidBodySet,
    joints: rapier3d::dynamics::MultibodyJointSet,
) -> Option<SpawnError> {
    let links = asset.robot.links@.len();
    if inserted.bodies@.len() != links {
        Some(
            SpawnError::InsertionMismatch {
                links: links as usize,
                bodies: inserted.bodies@.len() as usize,
            },
        )
    } else if !all_live(body_poses(bodies), inserted.bodies@) {
        Some(SpawnError::BodyMissing)
    } else if !all_distinct(inserted.bodies@) {
        Some(SpawnError::BodyShared)
    } else if !fully_jointed(asset.urdf_robot, joints, inserted.bodies@, inserted.joints@) {
        Some(SpawnError::JointMissing)
    } else if !self_contacts_set(joints, inserted.bodies@, false) {
        Some(SpawnError::SelfContactsOn)
    } else {
        None
    }
}

/// The least index of an undrawable link, or the number of links when every
/// link can be drawn.
pub open spec fn first_undrawable(links: Seq<Link>, mesh_dir: Seq<char>) -> nat
    decreases links.len(),
{
    if links.len() == 0 {
        0
    } else if undrawable(links[0], mesh_dir) {
        0
    } else {
        1 + first_undrawable(links.drop_first(), mesh_dir)
    }
}

/// `child` is the entity of link `link`: it draws the mesh of that link's
/// first visual entry, follows the body made for that link, and stands at the
/// conversion of that body's pose.
pub open spec fn child_of_link<
    C: Fn(Quaternion, Quaternion) -> Quaternion,
    R: Fn(Quaternion, Vector3) -> Vector3,
>(
    remap: FrameRemap<C, R>,
    links: Seq<Link>,
    mesh_dir: Seq<char>,
    bodies: Seq<BodyHandle>,
    poses: Map<BodyHandle, Pose>,
    link: int,
    child: LinkEntity,
) -> bool {
    &&& child.link == link
    &&& 0 <= link < links.len()
    &&& link < bodies.len()
    &&& first_visual(links[link]) matches Some(geometry)
    &&& Some(child.mesh@) == mesh_for(geometry, mesh_dir)
    &&& child.body.0 == bodies[link]
    &&& poses.dom().contains(child.body.0)
    &&& converts(remap, poses[child.body.0], child.transform)
}

/// `instance` is `asset` as it stands in the simulation with the bodies
/// `made`: one live body per link, no two the same; every joint of the
/// template holding its two links in a multibody, with self-contacts off;
/// the robot's own entity at its fixed placement and always drawn; and one
/// entity for each link that has geometry, in link order.
pub open spec fn instantiated<
    C: Fn(Quaternion, Quaternion) -> Quaternion,
    R: Fn(Quaternion, Vector3) -> Vector3,
>(
    remap: FrameRemap<C, R>,
    asset: UrdfAsset,
    mesh_dir: Seq<char>,
    made: Inserted,
    bodies: rapier3d::dynamics::RigidBodySet,
    joints: rapier3d::dynamics::MultibodyJointSet,
    instance: RobotInstance,
) -> bool {
    let links = asset.robot.links@;
    &&& instance.well_formed()
    &&& instance.transform == root_placement()
    &&& instance.always_visible
    &&& instance.bodies@ == made.bodies@
    &&& instance.bodies@.len() == links.len()
    &&& all_live(body_poses(bodies), instance.bodies@)
    &&& fully_jointed(asset.urdf_robot, joints, instance.bodies@, made.joints@)
    &&& self_contacts_set(joints, instance.bodies@, false)
    &&& instance.children@.len() == drawn_links(links).len()
    &&& forall|c: int|
        0 <= c < instance.children@.len() ==> child_of_link(
            remap,
            links,
            mesh_dir,
            instance.bodies@,
            body_poses(bodies),
            drawn_links(links)[c],
            #[trigger] instance.children@[c],
        )
}

/// [`first_undrawable`] stops at an undrawable link and passes none on the
/// way.
pub proof fn lemma_first_undrawable(links: Seq<Link>, mesh_dir: Seq<char>)
    ensures
        first_undrawable(links, mesh_dir) <= links.len(),
        drawable_before(links, mesh_dir, first_undrawable(links, mesh_dir) as int),
        first_undrawable(links, mesh_dir) < links.len() ==> undrawable(
            links[first_undrawable(links, mesh_dir) as int],
            mesh_dir,
        ),
    decreases links.len(),
{
    if links.len() > 0 && !undrawable(links[0], mesh_dir) {
        let rest = links.drop_first();
        lemma_first_undrawable(rest, mesh_dir);
        let f = first_undrawable(rest, mesh_dir) as int;
        assert forall|i: int| 0 <= i < 1 + f && i < links.len() implies !undrawable(
            #[trigger] links[i],
            mesh_dir,
        ) by {
            if i > 0 {
                assert(links[i] == rest[i - 1]);
            }
        }
        if 1 + f < links.len() {
            assert(links[1 + f] == rest[f]);
        }
    }
}

/// An undrawable link before which every link can be drawn is the first
/// undrawable one.
pub proof fn lemma_first_undrawable_is(links: Seq<Link>, mesh_dir: Seq<char>, at: int)
    requires
        0 <= at < links.len(),
        undrawable(links[at], mesh_dir),
        drawable_before(links, mesh_dir, at),
    ensures
        first_undrawable(links, mesh_dir) == at,
{
    lemma_first_undrawable(links, mesh_dir);
    let f = first_undrawable(links, mesh_dir) as int;
    if f < at {
        assert(!undrawable(links[f], mesh_dir));
    } else if f > at {
        assert(!undrawable(links[at], mesh_dir));
    }
}

proof fn lemma_drawn_links_step(links: Seq<Link>, upto: int)
    requires
        0 <= upto < links.len(),
    ensures
        drawn_links(links.take(upto + 1)) == if first_visual(links[upto]) is Some {
            drawn_links(links.take(upto)).push(upto)
        } else {
            drawn_links(links.take(upto))
        },
{
    let longer = links.take(upto + 1);
    assert(longer.drop_last() =~= links.take(upto));
    assert(longer.last() == links[upto]);
}

/// The meshes drawn for the links of `asset`, one entry per link and `None`
/// for a link without geometry; or the first link that cannot be drawn.
fn plan_meshes(asset: &UrdfAsset, mesh_dir: &str) -> (plan: Result<Vec<Option<VisualMesh>>, usize>)
    requires
        link_counts_agree(*asset),
    ensures
        match plan {
            Ok(meshes) => {
                &&& drawable_before(asset.robot.links@, mesh_dir@, asset.robot.links@.len() as int)
                &&& meshes@.len() == asset.robot.links@.len()
                &&& forall|i: int|
                    0 <= i < meshes@.len() ==> match first_visual(asset.robot.links@[i]) {
                        Some(geometry) => (#[trigger] meshes@[i]) matches Some(mesh) && Some(mesh@)
                            == mesh_for(geometry, mesh_dir@),
                        None => meshes@[i] is None,
                    }
            },
            Err(link) => {
                &&& link < asset.robot.links@.len()
                &&& undrawable(asset.robot.links@[link as int], mesh_dir@)
                &&& drawable_before(asset.robot.links@, mesh_dir@, link as int)
            },
        },
{
    let geoms = extract_robot_geometry(asset);
    let mut meshes: Vec<Option<VisualMesh>> = Vec::new();
    let mut i: usize = 0;
    while i < geoms.len()
        invariant
            i <= geoms@.len(),
            geoms@.len() == asset.robot.links@.len(),
            forall|k: int|
                0 <= k < geoms@.len() ==> (#[trigger] geoms@[k]).1 == first_visual(
                    asset.robot.links@[k],
                ),
            drawable_before(asset.robot.links@, mesh_dir@, i as int),
            meshes@.len() == i,
            forall|k: int|
                0 <= k < i ==> match first_visual(asset.robot.links@[k]) {
                    Some(geometry) => (#[trigger] meshes@[k]) matches Some(mesh) && Some(mesh@)
                        == mesh_for(geometry, mesh_dir@),
                    None => meshes@[k] is None,
                },
        decreases geoms@.len() - i,
    {
        assert(geoms@[i as int].1 == first_visual(asset.robot.links@[i as int]));
        match &geoms[i].1 {
            Some(geometry) => {
                match resolve_mesh(geometry, mesh_dir) {
                    Some(mesh) => {
                        meshes.push(Some(mesh));
                    },
                    None => {
                        return Err(i);
                    },
                }
            },
            None => {
                meshes.push(None);
            },
        }
        i += 1;
    }
    Ok(meshes)
}

/// The option bits with which the template is to be put into the tables:
/// contacts between the robot's own links off.
pub fn spawn_options() -> (options: u8)
    ensures
        disables_self_contacts(options),
        options == crate::physics::DISABLE_SELF_CONTACTS,
{
    multibody_options(true)
}

/// Vets a loaded robot before anything is made of it.
///
/// A robot that is refused here is to be left alone: no body, collider,
/// joint or entity is to be made of it.
pub fn check_spawn(asset: &UrdfAsset, mesh_dir: &str) -> (refusal: Option<SpawnError>)
    ensures
        refusal == spawn_refusal(*asset, mesh_dir@),
{
    let count = template_link_count(&asset.urdf_robot);
    if asset.robot.links.len() != count {
        return Some(
            SpawnError::LinkCountMismatch { description: asset.robot.links.len(), template: count },
        );
    }
    match plan_meshes(asset, mesh_dir) {
        Ok(meshes) => check_template(&asset.urdf_robot),
        Err(link) => {
            proof {
                lemma_first_undrawable_is(asset.robot.links@, mesh_dir@, link as int);
            }
            Some(SpawnError::UnsupportedGeometry { link })
        },
    }
}

/// Decides what is wrong with what the engine handed back, if anything is.
fn check_insertion(
    asset: &UrdfAsset,
    inserted: &Inserted,
    bodies: &rapier3d::dynamics::RigidBodySet,
    joints: &rapier3d::dynamics::MultibodyJointSet,
) -> (refusal: Option<SpawnError>)
    requires
        link_counts_agree(*asset),
        template_refusal(asset.urdf_robot) is None,
    ensures
        refusal == insertion_refusal(*asset, *inserted, *bodies, *joints),
{
    if inserted.bodies.len() != asset.robot.links.len() {
        Some(
            SpawnError::InsertionMismatch {
                links: asset.robot.links.len(),
                bodies: inserted.bodies.len(),
            },
        )
    } else if !bodies_live(bodies, &inserted.bodies) {
        Some(SpawnError::BodyMissing)
    } else if !bodies_distinct(&inserted.bodies) {
        Some(SpawnError::BodyShared)
    } else if !check_jointed(&asset.urdf_robot, joints, inserted) {
        Some(SpawnError::JointMissing)
    } else if !self_contacts_off(joints, &inserted.bodies) {
        Some(SpawnError::SelfContactsOn)
    } else {
        None
    }
}

/// Makes the spawned robot out of what the engine handed back when the
/// physics template of `asset` was put into its tables.
///
/// The robot is vetted again, and what the engine handed back is held
/// against the tables: one live body per link, no body twice, every joint
/// taken with both ends in a multibody, self-contacts off. If any of it
/// fails, no entity is made and the error says what failed; what the engine
/// put into its tables stays there. Otherwise one entity has been made for
/// each link with geometry, following the body of its link and standing at
/// the conversion of that body's pose, under the robot's own entity at its
/// fixed placement.
pub fn instantiate<
    C: Fn(Quaternion, Quaternion) -> Quaternion,
    R: Fn(Quaternion, Vector3) -> Vector3,
>(
    asset: &UrdfAsset,
    mesh_dir: &str,
    inserted: Inserted,
    bodies: &rapier3d::dynamics::RigidBodySet,
    joints: &rapier3d::dynamics::MultibodyJointSet,
    remap: &FrameRemap<C, R>,
) -> (spawned: Result<RobotInstance, SpawnError>)
    requires
        accepts_all(*remap),
    ensures
        match spawned {
            Ok(instance) => {
                &&& spawn_refusal(*asset, mesh_dir@) is None
                &&& insertion_refusal(*asset, inserted, *bodies, *joints) is None
                &&& instantiated(*remap, *asset, mesh_dir@, inserted, *bodies, *joints, instance)
            },
            Err(error) => Some(error) == if spawn_refusal(*asset, mesh_dir@) is Some {
                spawn_refusal(*asset, mesh_dir@)
            } else {
                insertion_refusal(*asset, inserted, *bodies, *joints)
            },
        },
{
    let count = template_link_count(&asset.urdf_robot);
    if asset.robot.links.len() != count {
        return Err(
            SpawnError::LinkCountMismatch { description: asset.robot.links.len(), template: count },
        );
    }
    let mut meshes = match plan_meshes(asset, mesh_dir) {
        Ok(meshes) => meshes,
        Err(link) => {
            proof {
                lemma_first_undrawable_is(asset.robot.links@, mesh_dir@, link as int);
            }
            return Err(SpawnError::UnsupportedGeometry { link });
        },
    };
    match check_template(&asset.urdf_robot) {
        Some(error) => {
            return Err(error);
        },
        None => {},
    }
    match check_insertion(asset, &inserted, bodies, joints) {
        Some(error) => {
            return Err(error);
        },
        None => {},
    }
    let ghost links = asset.robot.links@;
    let ghost plan = meshes@;
    let handles = inserted.bodies;
    let mut children: Vec<LinkEntity> = Vec::new();
    let mut i: usize = 0;
    while i < handles.len()
        invariant
            accepts_all(*remap),
            i <= handles@.len(),
            handles@.len() == links.len(),
            links == asset.robot.links@,
            meshes@.len() == links.len(),
            plan.len() == links.len(),
            forall|k: int| i <= k < links.len() ==> #[trigger] meshes@[k] == plan[k],
            forall|k: int|
                0 <= k < links.len() ==> match first_visual(links[k]) {
                    Some(geometry) => (#[trigger] plan[k]) matches Some(mesh) && Some(mesh@)
                        == mesh_for(geometry, mesh_dir@),
                    None => plan[k] is None,
                },
            all_live(body_poses(*bodies), handles@),
            children@.len() == drawn_links(links.take(i as int)).len(),
            forall|c: int|
                0 <= c < children@.len() ==> child_of_link(
                    *remap,
                    links,
                    mesh_dir@,
                    handles@,
                    body_poses(*bodies),
                    drawn_links(links.take(i as int))[c],
                    #[trigger] children@[c],
                ),
        decreases handles@.len() - i,
    {
        proof {
            lemma_drawn_links_step(links, i as int);
        }
        let mut slot: Option<VisualMesh> = None;
        std::mem::swap(&mut meshes[i], &mut slot);
        match slot {
            Some(mesh) => {
                let body = UrdfRobotRigidBodyHandle(handles[i]);
                let placement = place_link(body, bodies, remap);
                let transform = placement.unwrap();
                children.push(LinkEntity { link: i, mesh, body, transform });
            },
            None => {},
        }
        i += 1;
    }
    proof {
        assert(links.take(links.len() as int) =~= links);
        lemma_drawn_links(links);
    }
    Ok(
        RobotInstance {
            transform: root_correction(),
            always_visible: true,
            bodies: handles,
            children,
        },
    )
}

} // verus!
