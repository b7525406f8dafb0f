use urdf_bridge::description::{Geometry, Vec3};
use urdf_bridge::visual::{mesh_path, resolve_mesh, VisualMesh};

fn bits(x: f64, y: f64, z: f64) -> Vec3 {
    Vec3 { x: x.to_bits(), y: y.to_bits(), z: z.to_bits() }
}

#[test]
fn box_is_drawn_doubled_with_axes_exchanged() {
    let geometry = Geometry::Box { size: bits(1.0, 2.0, 3.0) };
    match resolve_mesh(&geometry, "meshes") {
        Some(VisualMesh::Cuboid { half_size }) => {
            assert_eq!(half_size, bits(1.0, 3.0, 2.0));
            let sides = (
                f64::from_bits(half_size.x) as f32 * 2.0,
                f64::from_bits(half_size.y) as f32 * 2.0,
                f64::from_bits(half_size.z) as f32 * 2.0,
            );
            assert_eq!(sides, (2.0, 6.0, 4.0));
        }
        other => panic!("not a cuboid: {other:?}"),
    }
}

#[test]
fn sphere_keeps_its_radius() {
    let geometry = Geometry::Sphere { radius: 0.25f64.to_bits() };
    match resolve_mesh(&geometry, "meshes") {
        Some(VisualMesh::Sphere { radius }) => assert_eq!(f64::from_bits(radius), 0.25),
        other => panic!("not a sphere: {other:?}"),
    }
}

#[test]
fn mesh_is_loaded_from_under_the_mesh_dir() {
    let geometry = Geometry::Mesh { filename: "arm.stl".to_string(), scale: Some(bits(1.0, 1.0, 1.0)) };
    match resolve_mesh(&geometry, "robots/meshes") {
        Some(VisualMesh::File { path }) => assert_eq!(path, "robots/meshes/arm.stl"),
        other => panic!("not a file: {other:?}"),
    }
}

#[test]
fn cylinder_and_capsule_are_refused() {
    let cylinder = Geometry::Cylinder { radius: 1.0f64.to_bits(), length: 2.0f64.to_bits() };
    let capsule = Geometry::Capsule { radius: 1.0f64.to_bits(), length: 2.0f64.to_bits() };
    assert!(resolve_mesh(&cylinder, "meshes").is_none());
    assert!(resolve_mesh(&capsule, "meshes").is_none());
}

#[test]
fn mesh_path_joins_as_a_path_does() {
    let cases = [
        ("meshes", "arm.stl"),
        ("meshes/", "arm.stl"),
        ("", "arm.stl"),
        ("meshes", "/abs/arm.stl"),
        ("meshes", ""),
        ("", ""),
        ("/", "arm.stl"),
        ("robots/meshes", "sub/arm.stl"),
        ("m\u{e9}shes", "\u{e4}rm.stl"),
    ];
    for (base, file) in cases {
        let expected = std::path::Path::new(base).join(file);
        assert_eq!(mesh_path(base, file), expected.to_str().unwrap(), "{base:?} {file:?}");
    }
}

#[test]
fn mesh_path_exact_values() {
    assert_eq!(mesh_path("meshes", "arm.stl"), "meshes/arm.stl");
    assert_eq!(mesh_path("meshes/", "arm.stl"), "meshes/arm.stl");
    assert_eq!(mesh_path("", "arm.stl"), "arm.stl");
    assert_eq!(mesh_path("meshes", "/abs/arm.stl"), "/abs/arm.stl");
}

#[test]
fn visual_mesh_clones_equal() {
    let mesh = VisualMesh::File { path: "a/b.stl".to_string() };
    match mesh.clone() {
        VisualMesh::File { path } => assert_eq!(path, "a/b.stl"),
        other => panic!("not a file: {other:?}"),
    }
    let geometry = Geometry::Mesh { filename: "b.stl".to_string(), scale: None };
    match geometry.clone() {
        Geometry::Mesh { filename, scale } => {
            assert_eq!(filename, "b.stl");
            assert_eq!(scale, None);
        }
        other => panic!("not a mesh: {other:?}"),
    }
}
