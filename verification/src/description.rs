//! The robot description: links with their visual geometry and inertial
//! origin, paired with the physics-ready template built from the same file,
//! and the extraction of per-link geometry from the pair.
//!
//! Lengths and angles are carried as the bit patterns of double-precision
//! numbers. Nothing here does arithmetic on them; they are picked, copied and
//! handed on.

use vstd::prelude::*;
use crate::physics::template_colliders;
use crate::physics::collider_counts;

verus! {

/// Three double-precision components, each as its bit pattern.
#[derive(Clone, Copy, Debug, PartialEq, Eq, Structural)]
pub struct Vec3 {
    pub x: u64,
    pub y: u64,
    pub z: u64,
}

/// A placement inside a link's frame: a position and roll-pitch-yaw angles.
#[derive(Clone, Copy, Debug, PartialEq, Eq, Structural)]
pub struct Origin {
    pub xyz: Vec3,
    pub rpy: Vec3,
}

/// The shape that a link is drawn with.
#[derive(Debug)]
pub enum Geometry {
    Box { size: Vec3 },
    Cylinder { radius: u64, length: u64 },
    Capsule { radius: u64, length: u64 },
    Sphere { radius: u64 },
    Mesh { filename: String, scale: Option<Vec3> },
}

impl Clone for Geometry {
    fn clone(&self) -> (copy: Self)
        ensures
            copy == *self,
    {
        match self {
            Geometry::Box { size } => Geometry::Box { size: *size },
            Geometry::Cylinder { radius, length } => Geometry::Cylinder {
                radius: *radius,
                length: *length,
            },
            Geometry::Capsule { radius, length } => Geometry::Capsule {
                radius: *radius,
                length: *length,
            },
            Geometry::Sphere { radius } => Geometry::Sphere { radius: *radius },
            Geometry::Mesh { filename, scale } => Geometry::Mesh {
                filename: filename.clone(),
                scale: *scale,
            },
        }
    }
}

/// One rigid segment of the robot: the geometry of each of its visual
/// entries, in order, and the origin of its inertial frame.
#[derive(Debug)]
pub struct Link {
    pub visual: Vec<Geometry>,
    pub inertial_origin: Origin,
}

/// The links of a robot, in the order that gives each its index.
#[derive(Debug)]
pub struct Robot {
    pub links: Vec<Link>,
}

/// A loaded robot: its description and the multibody template made from it.
pub struct UrdfAsset {
    pub robot: Robot,
    pub urdf_robot: rapier3d_urdf::UrdfRobot,
}

/// Points at one collider of the template: the link it hangs on and its
/// place among that link's colliders.
#[derive(Clone, Copy, Debug, PartialEq, Eq, Structural)]
pub struct ColliderRef {
    pub link: usize,
    pub slot: usize,
}

/// What is drawn for a link: the geometry of its first visual entry, if it
/// has any.
pub open spec fn first_visual(link: Link) -> Option<Geometry> {
    if link.visual@.len() >= 1 {
        Some(link.visual@[0])
    } else {
        None
    }
}

/// The collider that stands for link `index`: its only one, and none when it
/// has no collider or several.
pub open spec fn sole_collider(index: usize, colliders: usize) -> Option<ColliderRef> {
    if colliders == 1 {
        Some(ColliderRef { link: index, slot: 0 })
    } else {
        None
    }
}

/// The entry that [`extract_robot_geometry`] gives for link `index`.
pub open spec fn link_geometry(index: usize, link: Link, colliders: usize) -> (
    usize,
    Option<Geometry>,
    Origin,
    Option<ColliderRef>,
) {
    (index, first_visual(link), link.inertial_origin, sole_collider(index, colliders))
}

/// The description and the template agree on how many links the robot has.
pub open spec fn link_counts_agree(asset: UrdfAsset) -> bool {
    asset.robot.links@.len() == template_colliders(asset.urdf_robot).len()
}

/// The indices of the links that have something to draw, in ascending order.
pub open spec fn drawn_links(links: Seq<Link>) -> Seq<int>
    decreases links.len(),
{
    if links.len() == 0 {
        Seq::empty()
    } else if first_visual(links.last()) is Some {
        drawn_links(links.drop_last()).push(links.len() - 1)
    } else {
        drawn_links(links.drop_last())
    }
}

/// [`drawn_links`] lists each link that has geometry once, lists no other
/// link, and ascends; so it is never longer than the list of links.
pub proof fn lemma_drawn_links(links: Seq<Link>)
    ensures
        drawn_links(links).len() <= links.len(),
        forall|c: int|
            0 <= c < drawn_links(links).len() ==> {
                &&& 0 <= (#[trigger] drawn_links(links)[c]) < links.len()
                &&& first_visual(links[drawn_links(links)[c]]) is Some
            },
        forall|c: int, d: int|
            0 <= c < d < drawn_links(links).len() ==> drawn_links(links)[c] < drawn_links(links)[d],
        forall|i: int|
            0 <= i < links.len() && first_visual(#[trigger] links[i]) is Some ==> drawn_links(
                links,
            ).contains(i),
    decreases links.len(),
{
    if links.len() > 0 {
        let shorter = links.drop_last();
        let last = links.len() - 1;
        lemma_drawn_links(shorter);
        let before = drawn_links(shorter);
        let all = drawn_links(links);
        assert forall|c: int| 0 <= c < all.len() implies 0 <= (#[trigger] all[c]) < links.len()
            && first_visual(links[all[c]]) is Some by {
            if c < before.len() {
                assert(all[c] == before[c]);
                assert(links[before[c]] == shorter[before[c]]);
            }
        }
        assert forall|c: int, d: int| 0 <= c < d < all.len() implies all[c] < all[d] by {
            assert(all[c] == before[c]);
            if d < before.len() {
                assert(all[d] == before[d]);
            }
        }
        assert forall|i: int|
            0 <= i < links.len() && first_visual(#[trigger] links[i]) is Some implies all.contains(
            i,
        ) by {
            if i < last {
                assert(links[i] == shorter[i]);
                let c = choose|c: int| 0 <= c < before.len() && before[c] == i;
                assert(all[c] == i);
            } else {
                assert(all[all.len() - 1] == i);
            }
        }
    }
}

/// For each link, in link order: its index, the geometry of its first visual
/// entry if it has one, its inertial origin, and its collider when the
/// template gives it exactly one.
///
/// The description and the template must have the same number of links.
pub fn extract_robot_geometry(robot: &UrdfAsset) -> (geoms: Vec<
    (usize, Option<Geometry>, Origin, Option<ColliderRef>),
>)
    requires
        link_counts_agree(*robot),
    ensures
        geoms@.len() == robot.robot.links@.len(),
        forall|i: int|
            0 <= i < geoms@.len() ==> #[trigger] geoms@[i] == link_geometry(
                i as usize,
                robot.robot.links@[i],
                template_colliders(robot.urdf_robot)[i],
            ),
{
    let counts = collider_counts(&robot.urdf_robot);
    let mut result: Vec<(usize, Option<Geometry>, Origin, Option<ColliderRef>)> = Vec::new();
    let mut i: usize = 0;
    while i < robot.robot.links.len()
        invariant
            i <= robot.robot.links@.len(),
            counts@ == template_colliders(robot.urdf_robot),
            counts@.len() == robot.robot.links@.len(),
            result@.len() == i,
            forall|k: int|
                0 <= k < i ==> #[trigger] result@[k] == link_geometry(
                    k as usize,
                    robot.robot.links@[k],
                    counts@[k],
                ),
        decreases robot.robot.links@.len() - i,
    {
        let link = &robot.robot.links[i];
        let collider = if counts[i] == 1 {
            Some(ColliderRef { link: i, slot: 0 })
        } else {
            None
        };
        let geometry = if link.visual.len() >= 1 {
            Some(link.visual[0].clone())
        } else {
            None
        };
        result.push((i, geometry, link.inertial_origin, collider));
        i += 1;
    }
    result
}

} // verus!
