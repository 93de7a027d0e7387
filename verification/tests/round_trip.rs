use bevy_serialization_urdf::flags::{
    FileCheckPicker, GeometryFlag, Matrix3, MeshPrimitive, RigidBodyFlag,
};
use bevy_serialization_urdf::robot::{Robot, Urdf};
use bevy_serialization_urdf::scalar::{Scalar, Vec3};
use bevy_serialization_urdf::wrappers::material_and_mesh::{Geometry, VisualWrapper};
use bevy_serialization_urdf::wrappers::urdf::{
    JointLimit, JointType, JointWrapper, LinkWrapper, UrdfTransform,
};

fn s(value: f64) -> Scalar {
    Scalar::from_bits(value.to_bits())
}

fn v(x: f64, y: f64, z: f64) -> Vec3 {
    Vec3::new(s(x), s(y), s(z))
}

fn bot() -> Urdf {
    Urdf {
        robot: Robot {
            name: "bot".to_string(),
            links: vec![
                LinkWrapper {
                    name: "base".to_string(),
                    inertial: None,
                    visual: vec![VisualWrapper {
                        origin: UrdfTransform::identity(),
                        geometry: Geometry::Box { size: v(1.0, 2.0, 3.0) },
                        material: None,
                    }],
                    collision: vec![],
                },
                LinkWrapper {
                    name: "wheel".to_string(),
                    inertial: None,
                    visual: vec![],
                    collision: vec![],
                },
            ],
            joints: vec![JointWrapper {
                name: "wheel_joint".to_string(),
                joint_type: JointType::Continuous,
                origin: UrdfTransform { xyz: v(0.0, 0.5, 0.0), rpy: v(0.0, 0.0, 1.5) },
                parent: "base".to_string(),
                child: "wheel".to_string(),
                axis: v(0.0, 1.0, 0.0),
                limit: JointLimit {
                    lower: s(-1.0),
                    upper: s(1.0),
                    effort: s(20.0),
                    velocity: s(3.0),
                },
                dynamics: None,
            }],
            materials: vec![],
        },
    }
}

#[test]
fn robot_with_a_wheel_becomes_two_entities() {
    let graph = Urdf::into_entities(bot()).unwrap();
    assert_eq!(graph.len(), 2);

    let base = graph.node(graph.find("base").unwrap());
    assert_eq!(base.rigid_body, Some(RigidBodyFlag::Fixed));
    assert_eq!(
        base.geometry,
        Some(FileCheckPicker::PureComponent(GeometryFlag {
            primitive: MeshPrimitive::Cuboid { size: v(1.0, 2.0, 3.0) },
            orientation_matrix: Matrix3(v(0.0, 0.0, -1.0), v(0.0, 1.0, 0.0), v(1.0, 0.0, 0.0)),
        }))
    );
    assert_eq!(base.joint, None);

    let wheel = graph.node(graph.find("wheel").unwrap());
    assert_eq!(wheel.rigid_body, Some(RigidBodyFlag::Dynamic));
    let joint = wheel.joint.clone().unwrap();
    assert_eq!(joint.parent_name, Some("base".to_string()));
    assert_eq!(f64::from_bits(joint.limit.lower.bits), -1.0);
    assert_eq!(f64::from_bits(joint.limit.upper.bits), 1.0);
}

#[test]
fn robot_with_a_wheel_comes_back_with_its_joint() {
    let graph = Urdf::into_entities(bot()).unwrap();
    let items = graph.link_query();
    assert_eq!(items.len(), 2);
    let trees = Urdf::into_hashmap(items);
    assert_eq!(trees.len(), 1);
    let tree = &trees[0].robot;
    assert_eq!(tree.name, "bot");
    assert_eq!(tree.joints.len(), 1);
    let joint = &tree.joints[0];
    assert_eq!(joint.name, "wheel_joint");
    assert_eq!(joint.parent, "base");
    assert_eq!(joint.child, "wheel");
    assert_eq!(joint.joint_type, JointType::Continuous);
    assert_eq!(f64::from_bits(joint.limit.lower.bits), -1.0);
    assert_eq!(f64::from_bits(joint.limit.upper.bits), 1.0);
    assert_eq!(f64::from_bits(joint.limit.effort.bits), 99999999999.0);
    assert_eq!(f64::from_bits(joint.limit.velocity.bits), 999999999999.0);
    assert_eq!(joint.origin, UrdfTransform { xyz: v(0.0, 0.5, 0.0), rpy: v(0.0, 0.0, 1.5) });
    assert_eq!(joint.dynamics, None);
}

#[test]
fn way_back_is_not_the_way_there() {
    let mut described = bot();
    described.robot.joints[0].joint_type = JointType::Prismatic;
    let graph = Urdf::into_entities(described.clone()).unwrap();
    let trees = Urdf::into_hashmap(graph.link_query());
    let joint = &trees[0].robot.joints[0];
    assert_ne!(joint, &described.robot.joints[0]);
    assert_eq!(joint.joint_type, JointType::Continuous);
    assert_ne!(joint.limit.effort, described.robot.joints[0].limit.effort);
    assert_ne!(joint.limit.velocity, described.robot.joints[0].limit.velocity);
    assert_eq!(joint.axis, v(1.0, 1.0, 1.0));
    assert!(trees[0].robot.links.is_empty());
}

#[test]
fn entity_of_an_unknown_child_is_not_queried() {
    let mut described = bot();
    described.robot.joints[0].child = "ghost".to_string();
    let graph = Urdf::into_entities(described).unwrap();
    assert_eq!(graph.len(), 3);
    let items = graph.link_query();
    assert_eq!(items.len(), 2);
    let trees = Urdf::into_hashmap(items);
    assert_eq!(trees.len(), 1);
    assert!(trees[0].robot.joints.is_empty());
}
