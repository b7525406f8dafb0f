//! What the renderer is asked to draw for a link.

use vstd::prelude::*;
use vstd::string::StringExecFns;
use vstd::string::StrSliceExecFns;
use crate::description::Geometry;
use crate::description::Vec3;

verus! {

/// A mesh for the renderer, in the renderer's axes.
#[derive(Debug)]
pub enum VisualMesh {
    /// A box centred on the origin that reaches `half_size` along each axis,
    /// so each side is twice as long as the component given.
    Cuboid { half_size: Vec3 },
    /// A sphere of the given radius.
    Sphere { radius: u64 },
    /// A mesh to be loaded from a file.
    File { path: String },
}

impl Clone for VisualMesh {
    fn clone(&self) -> (copy: Self)
        ensures
            copy == *self,
    {
        match self {
            VisualMesh::Cuboid { half_size } => VisualMesh::Cuboid { half_size: *half_size },
            VisualMesh::Sphere { radius } => VisualMesh::Sphere { radius: *radius },
            VisualMesh::File { path } => VisualMesh::File { path: path.clone() },
        }
    }
}

/// What a [`VisualMesh`] is, with the file path as a sequence of characters.
pub enum VisualMeshView {
    Cuboid { half_size: Vec3 },
    Sphere { radius: u64 },
    File { path: Seq<char> },
}

impl View for VisualMesh {
    type V = VisualMeshView;

    open spec fn view(&self) -> VisualMeshView {
        match *self {
            VisualMesh::Cuboid { half_size } => VisualMeshView::Cuboid { half_size },
            VisualMesh::Sphere { radius } => VisualMeshView::Sphere { radius },
            VisualMesh::File { path } => VisualMeshView::File { path: path@ },
        }
    }
}

/// `file` placed under the directory `base`: an absolute `file` stands for
/// itself, and otherwise a single separator is put between the two unless
/// `base` is empty or already ends in one.
pub open spec fn joined_path(base: Seq<char>, file: Seq<char>) -> Seq<char> {
    if file.len() > 0 && file[0] == '/' {
        file
    } else if base.len() == 0 || base.last() == '/' {
        base + file
    } else {
        base + seq!['/'] + file
    }
}

/// The half extents of the box drawn for a description box of the given
/// size: the description's second and third axes change places.
pub open spec fn box_half_size(size: Vec3) -> Vec3 {
    Vec3 { x: size.x, y: size.z, z: size.y }
}

/// The mesh drawn for `geometry`, or `None` for the kinds that cannot be
/// drawn.
pub open spec fn mesh_for(geometry: Geometry, mesh_dir: Seq<char>) -> Option<VisualMeshView> {
    match geometry {
        Geometry::Box { size } => Some(VisualMeshView::Cuboid { half_size: box_half_size(size) }),
        Geometry::Sphere { radius } => Some(VisualMeshView::Sphere { radius }),
        Geometry::Mesh { filename, scale } => Some(
            VisualMeshView::File { path: joined_path(mesh_dir, filename@) },
        ),
        Geometry::Cylinder { radius, length } => None,
        Geometry::Capsule { radius, length } => None,
    }
}

/// The path of the mesh file `filename` under the directory `mesh_dir`.
pub fn mesh_path(mesh_dir: &str, filename: &str) -> (path: String)
    ensures
        path@ == joined_path(mesh_dir@, filename@),
{
    if filename.unicode_len() > 0 && filename.get_char(0) == '/' {
        return String::from_str(filename);
    }
    let base_len = mesh_dir.unicode_len();
    let mut path = String::from_str(mesh_dir);
    if base_len > 0 && mesh_dir.get_char(base_len - 1) != '/' {
        proof {
            reveal_strlit("/");
            assert("/"@ =~= seq!['/']);
        }
        path.append("/");
    }
    path.append(filename);
    path
}

/// Picks the mesh that the renderer draws for a link's geometry.
///
/// A box becomes a cuboid whose half extents are the box's size with the
/// second and third axes exchanged; a sphere keeps its radius; a mesh
/// reference becomes the file under `mesh_dir`. Cylinders and capsules are
/// refused.
pub fn resolve_mesh(geometry: &Geometry, mesh_dir: &str) -> (mesh: Option<VisualMesh>)
    ensures
        mesh.is_some() == mesh_for(*geometry, mesh_dir@).is_some(),
        mesh matches Some(m) ==> Some(m@) == mesh_for(*geometry, mesh_dir@),
{
    match geometry {
        Geometry::Box { size } => Some(
            VisualMesh::Cuboid { half_size: Vec3 { x: size.x, y: size.z, z: size.y } },
        ),
        Geometry::Sphere { radius } => Some(VisualMesh::Sphere { radius: *radius }),
        Geometry::Mesh { filename, scale: _ } => Some(
            VisualMesh::File { path: mesh_path(mesh_dir, filename.as_str()) },
        ),
        Geometry::Cylinder { radius: _, length: _ } => None,
        Geometry::Capsule { radius: _, length: _ } => None,
    }
}

} // verus!
