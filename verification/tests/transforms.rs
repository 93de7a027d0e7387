use bevy_serialization_urdf::flags::{
    Dynamics, JointAxesMaskWrapper, JointFlag, JointLimitWrapper, Transform, AXIS_ANG_X,
    AXIS_ANG_Y, AXIS_ANG_Z, AXIS_X, AXIS_Y, AXIS_Z, LOCKED_FIXED_AXES,
};
use bevy_serialization_urdf::scalar::{Scalar, Vec3};
use bevy_serialization_urdf::wrappers::urdf::{JointLimit, JointType, JointWrapper, UrdfTransform};

fn s(value: f64) -> Scalar {
    Scalar::from_bits(value.to_bits())
}

fn v(x: f64, y: f64, z: f64) -> Vec3 {
    Vec3::new(s(x), s(y), s(z))
}

fn f(value: Scalar) -> f32 {
    f64::from_bits(value.to_bits()) as f32
}

/// What a host that draws with quaternions makes of a placement.
fn quaternion(transform: &Transform) -> glam::Quat {
    glam::Quat::from_euler(
        glam::EulerRot::XYZ,
        f(transform.rotation.x),
        f(transform.rotation.y),
        f(transform.rotation.z),
    )
}

fn joint() -> JointWrapper {
    JointWrapper {
        name: "elbow".to_string(),
        joint_type: JointType::Revolute,
        origin: UrdfTransform { xyz: v(1.0, 2.0, 3.0), rpy: v(0.25, 0.5, 0.75) },
        parent: "upper_arm".to_string(),
        child: "lower_arm".to_string(),
        axis: v(0.0, 0.0, 1.0),
        limit: JointLimit { lower: s(-1.5), upper: s(2.5), effort: s(30.0), velocity: s(4.0) },
        dynamics: Some(Dynamics { damping: s(0.7), friction: s(0.2) }),
    }
}

#[test]
fn offset_without_rotation_maps_to_the_same_offset_and_no_rotation() {
    let pose = UrdfTransform { xyz: v(1.0, 2.0, 3.0), rpy: v(0.0, 0.0, 0.0) };
    let transform = Transform::from(pose);
    assert_eq!(transform.translation, v(1.0, 2.0, 3.0));
    assert_eq!(transform.rotation, v(0.0, 0.0, 0.0));
    assert_eq!(transform.scale, v(1.0, 1.0, 1.0));
    assert_eq!(quaternion(&transform), glam::Quat::IDENTITY);
    assert_eq!(
        glam::Vec3::new(f(transform.translation.x), f(transform.translation.y), f(transform.translation.z)),
        glam::Vec3::new(1.0, 2.0, 3.0)
    );
}

#[test]
fn quarter_roll_maps_to_a_quarter_turn_about_x() {
    let pose = UrdfTransform { xyz: v(0.0, 0.0, 0.0), rpy: v(std::f64::consts::FRAC_PI_2, 0.0, 0.0) };
    let transform = Transform::from(pose);
    assert_eq!(transform.rotation, v(std::f64::consts::FRAC_PI_2, 0.0, 0.0));
    let expected = glam::Quat::from_rotation_x(std::f32::consts::FRAC_PI_2);
    assert!(quaternion(&transform).abs_diff_eq(expected, 1e-6));
    let half = std::f32::consts::FRAC_1_SQRT_2;
    assert!(quaternion(&transform).abs_diff_eq(glam::Quat::from_xyzw(half, 0.0, 0.0, half), 1e-6));
}

#[test]
fn angles_are_taken_over_one_by_one() {
    let pose = UrdfTransform { xyz: v(-4.0, 5.5, 0.125), rpy: v(0.1, -0.2, 0.3) };
    let transform = Transform::from(pose);
    assert_eq!(transform.translation, pose.xyz);
    assert_eq!(transform.rotation, pose.rpy);
    let expected = glam::Quat::from_euler(glam::EulerRot::XYZ, 0.1, -0.2, 0.3);
    assert!(quaternion(&transform).abs_diff_eq(expected, 1e-6));
}

#[test]
fn identity_placements() {
    assert_eq!(Transform::from(UrdfTransform::identity()), Transform::identity());
    assert_eq!(UrdfTransform::identity().xyz, v(0.0, 0.0, 0.0));
    assert_eq!(UrdfTransform::identity().rpy, v(0.0, 0.0, 0.0));
    assert_eq!(Transform::identity().scale, v(1.0, 1.0, 1.0));
}

#[test]
fn joint_attribute_takes_over_origin_parent_limit_and_dynamics() {
    let flag = JointFlag::from(&joint());
    assert_eq!(
        flag.offset,
        Transform {
            translation: v(1.0, 2.0, 3.0),
            rotation: v(0.0, 0.0, 0.0),
            scale: v(1.0, 1.0, 1.0)
        }
    );
    assert_eq!(
        flag.local_frame1,
        Transform {
            translation: v(1.0, 2.0, 3.0),
            rotation: v(0.25, 0.5, 0.75),
            scale: v(1.0, 1.0, 1.0)
        }
    );
    assert_eq!(flag.local_frame2, None);
    assert_eq!(flag.parent_name, Some("upper_arm".to_string()));
    assert_eq!(flag.parent_id, None);
    assert_eq!(
        flag.limit,
        JointLimitWrapper { lower: s(-1.5), upper: s(2.5), effort: s(30.0), velocity: s(4.0) }
    );
    assert_eq!(flag.dynamics, Dynamics { damping: s(0.7), friction: s(0.2) });
    assert!(flag.contacts_enabled);
    assert!(flag.enabled);
}

#[test]
fn joint_attribute_locks_every_axis_whatever_the_joint_axis() {
    let mut about_x = joint();
    about_x.axis = v(1.0, 0.0, 0.0);
    for described in [joint(), about_x] {
        let flag = JointFlag::from(&described);
        assert_eq!(flag.locked_axes, JointAxesMaskWrapper::from_bits(LOCKED_FIXED_AXES));
        assert_eq!(flag.locked_axes.bits, 0b11_1111);
        assert_eq!(flag.limit_axes, JointAxesMaskWrapper::empty());
        assert_eq!(flag.motor_axes, JointAxesMaskWrapper::empty());
        assert_eq!(flag.coupled_axes, JointAxesMaskWrapper::empty());
    }
}

#[test]
fn joint_without_dynamics_gets_none() {
    let mut described = joint();
    described.dynamics = None;
    let flag = JointFlag::from(&described);
    assert_eq!(flag.dynamics, Dynamics { damping: s(0.0), friction: s(0.0) });
    assert_eq!(flag.dynamics, Dynamics::none());
}

#[test]
fn axis_sets_contain_their_axes() {
    let all = JointAxesMaskWrapper::from_bits(LOCKED_FIXED_AXES);
    for axis in [AXIS_X, AXIS_Y, AXIS_Z, AXIS_ANG_X, AXIS_ANG_Y, AXIS_ANG_Z] {
        assert!(all.contains(axis));
        assert!(!JointAxesMaskWrapper::empty().contains(axis));
        assert!(JointAxesMaskWrapper::from_bits(axis).contains(axis));
    }
    let turning = JointAxesMaskWrapper::from_bits(AXIS_ANG_X | AXIS_ANG_Z);
    assert!(turning.contains(AXIS_ANG_X));
    assert!(!turning.contains(AXIS_ANG_Y));
    assert!(turning.contains(AXIS_ANG_X | AXIS_ANG_Z));
    assert!(!turning.contains(AXIS_ANG_X | AXIS_ANG_Y));
    assert!(turning.contains(0));
}
