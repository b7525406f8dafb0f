use rapier3d::dynamics::RigidBodyBuilder;
use rapier3d::geometry::ColliderBuilder;
use rapier3d_urdf::{UrdfLink, UrdfRobot};
use urdf_bridge::description::{
    extract_robot_geometry, ColliderRef, Geometry, Link, Origin, Robot, UrdfAsset, Vec3,
};
use urdf_bridge::physics::template_link_count;

fn bits(x: f64, y: f64, z: f64) -> Vec3 {
    Vec3 { x: x.to_bits(), y: y.to_bits(), z: z.to_bits() }
}

fn origin(x: f64) -> Origin {
    Origin { xyz: bits(x, 0.0, 0.0), rpy: bits(0.0, 0.0, x) }
}

fn template_link(colliders: usize) -> UrdfLink {
    UrdfLink {
        body: RigidBodyBuilder::dynamic().build(),
        colliders: (0..colliders).map(|_| ColliderBuilder::ball(0.5).build()).collect(),
    }
}

#[test]
fn geometry_is_extracted_link_by_link() {
    let asset = UrdfAsset {
        robot: Robot {
            links: vec![
                Link {
                    visual: vec![
                        Geometry::Sphere { radius: 1.5f64.to_bits() },
                        Geometry::Box { size: bits(1.0, 2.0, 3.0) },
                    ],
                    inertial_origin: origin(1.0),
                },
                Link { visual: vec![], inertial_origin: origin(2.0) },
                Link {
                    visual: vec![Geometry::Mesh { filename: "hand.stl".to_string(), scale: None }],
                    inertial_origin: origin(3.0),
                },
            ],
        },
        urdf_robot: UrdfRobot {
            links: vec![template_link(1), template_link(0), template_link(2)],
            joints: vec![],
        },
    };
    let geoms = extract_robot_geometry(&asset);
    assert_eq!(geoms.len(), 3);

    assert_eq!(geoms[0].0, 0);
    match &geoms[0].1 {
        Some(Geometry::Sphere { radius }) => assert_eq!(f64::from_bits(*radius), 1.5),
        other => panic!("first visual expected: {other:?}"),
    }
    assert_eq!(geoms[0].2, origin(1.0));
    assert_eq!(geoms[0].3, Some(ColliderRef { link: 0, slot: 0 }));

    assert_eq!(geoms[1].0, 1);
    assert!(geoms[1].1.is_none());
    assert_eq!(geoms[1].2, origin(2.0));
    assert_eq!(geoms[1].3, None);

    assert_eq!(geoms[2].0, 2);
    match &geoms[2].1 {
        Some(Geometry::Mesh { filename, scale }) => {
            assert_eq!(filename, "hand.stl");
            assert_eq!(*scale, None);
        }
        other => panic!("mesh expected: {other:?}"),
    }
    assert_eq!(geoms[2].2, origin(3.0));
    assert_eq!(geoms[2].3, None);
}

#[test]
fn empty_robot_has_no_geometry() {
    let asset = UrdfAsset {
        robot: Robot { links: vec![] },
        urdf_robot: UrdfRobot { links: vec![], joints: vec![] },
    };
    assert!(extract_robot_geometry(&asset).is_empty());
}

#[test]
fn template_links_are_counted() {
    let template = UrdfRobot {
        links: vec![template_link(0), template_link(3), template_link(1), template_link(1)],
        joints: vec![],
    };
    assert_eq!(template_link_count(&template), 4);
    assert_eq!(template_link_count(&UrdfRobot { links: vec![], joints: vec![] }), 0);
}
