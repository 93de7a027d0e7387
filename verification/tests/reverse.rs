use bevy_serialization_urdf::flags::{
    ColliderFlag, Dynamics, JointAxesMaskWrapper, JointFlag, JointLimitWrapper, MassFlag,
    StructureFlag, Transform, AXIS_ANG_X, AXIS_ANG_Y, AXIS_ANG_Z, AXIS_X, AXIS_Y, AXIS_Z,
    LOCKED_FIXED_AXES,
};
use bevy_serialization_urdf::reverse::{decimal_string, EFFORT_LIMIT_BITS, VELOCITY_LIMIT_BITS};
use bevy_serialization_urdf::robot::Urdf;
use bevy_serialization_urdf::scalar::{Scalar, Vec3};
use bevy_serialization_urdf::wrappers::urdf::{
    JointLimit, JointType, JointWrapper, LinkQuery, UrdfTransform,
};

fn s(value: f64) -> Scalar {
    Scalar::from_bits(value.to_bits())
}

fn v(x: f64, y: f64, z: f64) -> Vec3 {
    Vec3::new(s(x), s(y), s(z))
}

fn flag(parent: Option<&str>) -> JointFlag {
    JointFlag {
        offset: Transform::identity(),
        parent_name: parent.map(|p| p.to_string()),
        parent_id: None,
        limit: JointLimitWrapper { lower: s(-1.0), upper: s(1.0), effort: s(5.0), velocity: s(6.0) },
        dynamics: Dynamics { damping: s(0.5), friction: s(0.25) },
        local_frame1: Transform {
            translation: v(1.0, 2.0, 3.0),
            rotation: v(0.1, 0.2, 0.3),
            scale: v(1.0, 1.0, 1.0),
        },
        local_frame2: None,
        locked_axes: JointAxesMaskWrapper::from_bits(LOCKED_FIXED_AXES),
        limit_axes: JointAxesMaskWrapper::empty(),
        motor_axes: JointAxesMaskWrapper::empty(),
        coupled_axes: JointAxesMaskWrapper::empty(),
        contacts_enabled: true,
        enabled: true,
    }
}

fn item(structure: &str, name: Option<&str>, joint: Option<JointFlag>) -> LinkQuery {
    LinkQuery {
        name: name.map(|n| n.to_string()),
        structure: StructureFlag { name: structure.to_string() },
        inertial: Some(MassFlag { mass: s(1.0) }),
        visual: None,
        collision: Some(ColliderFlag::Convex),
        joint,
    }
}

#[test]
fn entities_are_grouped_by_their_robot() {
    let trees = Urdf::into_hashmap(vec![
        item("red", Some("a"), Some(flag(Some("x")))),
        item("blue", Some("b"), Some(flag(Some("y")))),
        item("red", Some("c"), Some(flag(Some("a")))),
        item("blue", Some("d"), None),
        item("green", Some("e"), None),
    ]);
    let tags: Vec<&str> = trees.iter().map(|t| t.robot.name.as_str()).collect();
    assert_eq!(tags, vec!["red", "blue", "green"]);
    let children = |i: usize| -> Vec<&str> {
        trees[i].robot.joints.iter().map(|j| j.child.as_str()).collect()
    };
    assert_eq!(children(0), vec!["a", "c"]);
    assert_eq!(children(1), vec!["b"]);
    assert!(children(2).is_empty());
}

#[test]
fn no_entities_give_no_robots() {
    assert!(Urdf::into_hashmap(vec![]).is_empty());
}

#[test]
fn links_and_materials_are_not_written_out() {
    let trees = Urdf::into_hashmap(vec![
        item("bot", Some("base"), None),
        item("bot", Some("wheel"), Some(flag(Some("base")))),
    ]);
    assert_eq!(trees.len(), 1);
    assert!(trees[0].robot.links.is_empty());
    assert!(trees[0].robot.materials.is_empty());
    assert_eq!(trees[0].robot.joints.len(), 1);
}

#[test]
fn joint_record_is_built_from_the_joint_attribute() {
    let trees = Urdf::into_hashmap(vec![item("bot", Some("wheel"), Some(flag(Some("base"))))]);
    assert_eq!(
        trees[0].robot.joints[0],
        JointWrapper {
            name: "wheel_joint".to_string(),
            joint_type: JointType::Continuous,
            origin: UrdfTransform { xyz: v(1.0, 2.0, 3.0), rpy: v(0.1, 0.2, 0.3) },
            parent: "base".to_string(),
            child: "wheel".to_string(),
            axis: v(1.0, 1.0, 1.0),
            limit: JointLimit {
                lower: s(-1.0),
                upper: s(1.0),
                effort: s(99999999999.0),
                velocity: s(999999999999.0),
            },
            dynamics: None,
        }
    );
}

#[test]
fn effort_and_velocity_limits_are_the_two_large_numbers() {
    assert_eq!(f64::from_bits(EFFORT_LIMIT_BITS), 99999999999.0);
    assert_eq!(f64::from_bits(VELOCITY_LIMIT_BITS), 999999999999.0);
    let record = JointWrapper::from_query(&item("bot", Some("w"), Some(flag(None))), 0).unwrap();
    assert_eq!(f64::from_bits(record.limit.effort.to_bits()), 99999999999.0);
    assert_eq!(f64::from_bits(record.limit.velocity.to_bits()), 999999999999.0);
    assert_eq!(f64::from_bits(record.limit.lower.to_bits()), -1.0);
    assert_eq!(f64::from_bits(record.limit.upper.to_bits()), 1.0);
}

#[test]
fn missing_parent_is_written_as_the_empty_name() {
    let record = JointWrapper::from_query(&item("bot", Some("w"), Some(flag(None))), 0).unwrap();
    assert_eq!(record.parent, "");
    assert_eq!(record.child, "w");
}

#[test]
fn entity_without_joint_gives_no_record() {
    assert_eq!(JointWrapper::from_query(&item("bot", Some("base"), None), 3), None);
}

#[test]
fn nameless_entity_is_named_by_the_number_of_joints_before_it() {
    let trees = Urdf::into_hashmap(vec![
        item("bot", None, Some(flag(None))),
        item("bot", None, None),
        item("other", None, Some(flag(None))),
        item("bot", Some("named"), Some(flag(None))),
        item("bot", None, Some(flag(None))),
    ]);
    let names: Vec<&str> = trees[0].robot.joints.iter().map(|j| j.name.as_str()).collect();
    assert_eq!(names, vec!["0_joint", "named_joint", "2_joint"]);
    let children: Vec<&str> = trees[0].robot.joints.iter().map(|j| j.child.as_str()).collect();
    assert_eq!(children, vec!["0", "named", "2"]);
    assert_eq!(trees[1].robot.joints[0].name, "0_joint");
}

#[test]
fn numbers_are_written_in_decimal() {
    assert_eq!(decimal_string(0), "0");
    assert_eq!(decimal_string(7), "7");
    assert_eq!(decimal_string(9), "9");
    assert_eq!(decimal_string(10), "10");
    assert_eq!(decimal_string(11), "11");
    assert_eq!(decimal_string(109), "109");
    assert_eq!(decimal_string(1234567890), "1234567890");
    assert_eq!(decimal_string(usize::MAX), usize::MAX.to_string());
    let record = JointWrapper::from_query(&item("bot", None, Some(flag(None))), 12).unwrap();
    assert_eq!(record.name, "12_joint");
    assert_eq!(record.child, "12");
}

#[test]
fn axis_has_a_one_for_each_locked_turning_axis() {
    let cases: [(u8, [f64; 3]); 6] = [
        (0, [0.0, 0.0, 0.0]),
        (AXIS_ANG_X, [1.0, 0.0, 0.0]),
        (AXIS_ANG_Y, [0.0, 1.0, 0.0]),
        (AXIS_ANG_Z | AXIS_ANG_X, [1.0, 0.0, 1.0]),
        (AXIS_X | AXIS_Y | AXIS_Z, [0.0, 0.0, 0.0]),
        (LOCKED_FIXED_AXES, [1.0, 1.0, 1.0]),
    ];
    for (bits, expected) in cases {
        let mut attribute = flag(None);
        attribute.locked_axes = JointAxesMaskWrapper::from_bits(bits);
        attribute.limit_axes = JointAxesMaskWrapper::from_bits(!bits & LOCKED_FIXED_AXES);
        let record =
            JointWrapper::from_query(&item("bot", Some("w"), Some(attribute)), 0).unwrap();
        assert_eq!(record.axis, v(expected[0], expected[1], expected[2]));
    }
}

#[test]
fn joint_type_and_dynamics_do_not_come_back() {
    let record = JointWrapper::from_query(&item("bot", Some("w"), Some(flag(None))), 0).unwrap();
    assert_eq!(record.joint_type, JointType::Continuous);
    assert_eq!(record.dynamics, None);
}
