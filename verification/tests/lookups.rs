use bevy_serialization_urdf::robot::{Robot, Urdf};
use bevy_serialization_urdf::scalar::{Scalar, Vec3};
use bevy_serialization_urdf::wrappers::material_and_mesh::{Geometry, VisualWrapper};
use bevy_serialization_urdf::wrappers::urdf::{
    JointLimit, JointType, JointWrapper, LinkWrapper, UrdfLinkage, UrdfTransform,
};

fn s(value: f64) -> Scalar {
    Scalar::from_bits(value.to_bits())
}

fn link(name: &str, radius: f64) -> LinkWrapper {
    LinkWrapper {
        name: name.to_string(),
        inertial: None,
        visual: vec![VisualWrapper {
            origin: UrdfTransform::identity(),
            geometry: Geometry::Sphere { radius: s(radius) },
            material: None,
        }],
        collision: vec![],
    }
}

fn joint(name: &str, parent: &str, child: &str) -> JointWrapper {
    JointWrapper {
        name: name.to_string(),
        joint_type: JointType::Fixed,
        origin: UrdfTransform::identity(),
        parent: parent.to_string(),
        child: child.to_string(),
        axis: Vec3::zero(),
        limit: JointLimit { lower: s(0.0), upper: s(0.0), effort: s(0.0), velocity: s(0.0) },
        dynamics: None,
    }
}

fn described() -> Urdf {
    Urdf {
        robot: Robot {
            name: "bot".to_string(),
            links: vec![link("base", 1.0), link("arm", 2.0), link("base", 3.0)],
            joints: vec![
                joint("first", "base", "arm"),
                joint("second", "base", "arm"),
                joint("loose", "arm", "ghost"),
            ],
            materials: vec![],
        },
    }
}

#[test]
fn link_lookup_finds_the_last_link_of_a_name() {
    let urdf = described();
    assert_eq!(urdf.robot.link("base"), Some(&urdf.robot.links[2]));
    assert_eq!(urdf.robot.link("arm"), Some(&urdf.robot.links[1]));
    assert_eq!(urdf.robot.link("ghost"), None);
    assert_eq!(urdf.robot.link(""), None);
}

#[test]
fn joint_lookup_finds_the_last_joint_of_a_child() {
    let urdf = described();
    assert_eq!(urdf.robot.joint_of("arm"), Some(&urdf.robot.joints[1]));
    assert_eq!(urdf.robot.joint_of("ghost"), Some(&urdf.robot.joints[2]));
    assert_eq!(urdf.robot.joint_of("base"), None);
}

#[test]
fn linkage_pairs_a_link_with_the_joint_that_drives_it() {
    let urdf = described();
    assert_eq!(
        urdf.robot.linkage("arm"),
        Some(UrdfLinkage { link: &urdf.robot.links[1], joint: Some(&urdf.robot.joints[1]) })
    );
    assert_eq!(
        urdf.robot.linkage("base"),
        Some(UrdfLinkage { link: &urdf.robot.links[2], joint: None })
    );
    assert_eq!(urdf.robot.linkage("ghost"), None);
}

#[test]
fn lookups_agree_with_the_entities() {
    let urdf = described();
    let graph = Urdf::into_entities(urdf.clone()).unwrap();
    let mut e: usize = 0;
    while e < graph.len() {
        let name = graph.name(e).clone();
        let node = graph.node(e);
        assert_eq!(node.name.is_some(), urdf.robot.link(&name).is_some());
        assert_eq!(node.joint.is_some(), urdf.robot.joint_of(&name).is_some());
        e += 1;
    }
    assert_eq!(graph.len(), 3);
}
