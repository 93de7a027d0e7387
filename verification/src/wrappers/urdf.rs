//! Links and joints, and what they become on an entity.

use vstd::prelude::*;
use crate::flags::{
    ColliderFlag, Dynamics, FileCheckPicker, FileCheckPickerView, JointAxesMaskWrapper,
    JointFlag, JointFlagView, JointLimitWrapper, LinkFlag, MassFlag, StructureFlag, Transform,
    LOCKED_FIXED_AXES,
};
use crate::scalar::{Scalar, Vec3};
use crate::wrappers::material_and_mesh::{
    CollisionView, CollisionWrapper, VisualView, VisualWrapper,
};

verus! {

/// A placement as a robot description gives it: an offset and three angles
/// in radians, roll about X, pitch about Y and yaw about Z.
#[derive(Clone, Copy, Debug, PartialEq, Eq, Structural)]
pub struct UrdfTransform {
    pub xyz: Vec3,
    pub rpy: Vec3,
}

impl UrdfTransform {
    /// No offset and no rotation.
    pub open spec fn spec_identity() -> UrdfTransform {
        UrdfTransform { xyz: Vec3::spec_zero(), rpy: Vec3::spec_zero() }
    }

    /// No offset and no rotation.
    #[verifier::when_used_as_spec(spec_identity)]
    pub fn identity() -> (pose: UrdfTransform)
        ensures
            pose == UrdfTransform::spec_identity(),
    {
        UrdfTransform { xyz: Vec3::zero(), rpy: Vec3::zero() }
    }
}

/// The placement that `pose` stands for: the offset and the angles are taken
/// over one by one, in the same order and about the same axes, and nothing
/// is scaled.
pub open spec fn transform_of(pose: UrdfTransform) -> Transform {
    Transform { translation: pose.xyz, rotation: pose.rpy, scale: Vec3::spec_one() }
}

impl Transform {
    /// The placement that `value` stands for.
    pub fn from(value: UrdfTransform) -> (transform: Transform)
        ensures
            transform == transform_of(value),
    {
        Transform { translation: value.xyz, rotation: value.rpy, scale: Vec3::one() }
    }
}

/// How heavy a link is.
#[derive(Clone, Copy, Debug, PartialEq, Eq, Structural)]
pub struct Inertial {
    pub mass: Scalar,
}

/// A rigid part of a robot.
#[derive(Clone, Debug, PartialEq, Eq)]
pub struct LinkWrapper {
    pub name: String,
    pub inertial: Option<Inertial>,
    /// What is drawn for the link. Only the first entry is looked at.
    pub visual: Vec<VisualWrapper>,
    pub collision: Vec<CollisionWrapper>,
}

/// A [`LinkWrapper`] with its texts as sequences of characters.
pub struct LinkView {
    pub name: Seq<char>,
    pub inertial: Option<Inertial>,
    pub visual: Seq<VisualView>,
    pub collision: Seq<CollisionView>,
}

impl View for LinkWrapper {
    type V = LinkView;

    open spec fn view(&self) -> LinkView {
        LinkView {
            name: self.name@,
            inertial: self.inertial,
            visual: self.visual.deep_view(),
            collision: self.collision.deep_view(),
        }
    }
}

impl DeepView for LinkWrapper {
    type V = LinkView;

    open spec fn deep_view(&self) -> LinkView {
        self@
    }
}

/// Where the shape of `link` sits in it: at the offset of its first visual,
/// or at no offset where it has no visual.
pub open spec fn link_flag(link: LinkView) -> LinkFlag {
    if link.visual.len() > 0 {
        LinkFlag { geom_offset: link.visual[0].origin.xyz }
    } else {
        LinkFlag { geom_offset: Vec3::spec_zero() }
    }
}

impl LinkFlag {
    /// The link attribute of `value`.
    pub fn from(value: &LinkWrapper) -> (flag: LinkFlag)
        ensures
            flag == link_flag(value@),
    {
        if value.visual.len() > 0 {
            LinkFlag { geom_offset: value.visual[0].origin.xyz }
        } else {
            LinkFlag { geom_offset: Vec3::zero() }
        }
    }
}

/// The kinds of joint.
#[derive(Clone, Copy, Debug, PartialEq, Eq, Structural)]
pub enum JointType {
    Revolute,
    Continuous,
    Prismatic,
    Fixed,
    Floating,
    Planar,
    Spherical,
}

/// The range of a joint, and the most force and speed it may be driven with.
#[derive(Clone, Copy, Debug, PartialEq, Eq, Structural)]
pub struct JointLimit {
    pub lower: Scalar,
    pub upper: Scalar,
    pub effort: Scalar,
    pub velocity: Scalar,
}

/// A joint: how a child link moves against its parent link.
///
/// Both links are given by name. Nothing says that a link of either name
/// exists.
#[derive(Clone, Debug, PartialEq, Eq)]
pub struct JointWrapper {
    pub name: String,
    pub joint_type: JointType,
    /// Where the joint sits, as seen from the parent.
    pub origin: UrdfTransform,
    pub parent: String,
    pub child: String,
    pub axis: Vec3,
    pub limit: JointLimit,
    pub dynamics: Option<Dynamics>,
}

/// A [`JointWrapper`] with its texts as sequences of characters.
pub struct JointView {
    pub name: Seq<char>,
    pub joint_type: JointType,
    pub origin: UrdfTransform,
    pub parent: Seq<char>,
    pub child: Seq<char>,
    pub axis: Vec3,
    pub limit: JointLimit,
    pub dynamics: Option<Dynamics>,
}

impl View for JointWrapper {
    type V = JointView;

    open spec fn view(&self) -> JointView {
        JointView {
            name: self.name@,
            joint_type: self.joint_type,
            origin: self.origin,
            parent: self.parent@,
            child: self.child@,
            axis: self.axis,
            limit: self.limit,
            dynamics: self.dynamics,
        }
    }
}

impl DeepView for JointWrapper {
    type V = JointView;

    open spec fn deep_view(&self) -> JointView {
        self@
    }
}

/// The joint attribute that stands for `joint` on the entity of its child.
///
/// The offset is that of the joint's origin, without its rotation; the frame
/// on the parent's side is the whole origin. The limit is taken over as it
/// is, the dynamics too where the joint has them. Every axis is locked, none
/// is limited, driven or coupled, whatever the joint's own axis says.
pub open spec fn joint_flag(joint: JointView) -> JointFlagView {
    JointFlagView {
        offset: Transform {
            translation: joint.origin.xyz,
            rotation: Vec3::spec_zero(),
            scale: Vec3::spec_one(),
        },
        parent_name: Some(joint.parent),
        parent_id: None,
        limit: JointLimitWrapper {
            lower: joint.limit.lower,
            upper: joint.limit.upper,
            effort: joint.limit.effort,
            velocity: joint.limit.velocity,
        },
        dynamics: match joint.dynamics {
            Some(dynamics) => dynamics,
            None => Dynamics::spec_none(),
        },
        local_frame1: transform_of(joint.origin),
        local_frame2: None,
        locked_axes: JointAxesMaskWrapper { bits: LOCKED_FIXED_AXES },
        limit_axes: JointAxesMaskWrapper::spec_empty(),
        motor_axes: JointAxesMaskWrapper::spec_empty(),
        coupled_axes: JointAxesMaskWrapper::spec_empty(),
        contacts_enabled: true,
        enabled: true,
    }
}

impl JointFlag {
    /// The joint attribute that stands for `value`.
    pub fn from(value: &JointWrapper) -> (flag: JointFlag)
        ensures
            flag@ == joint_flag(value@),
    {
        JointFlag {
            offset: Transform {
                translation: value.origin.xyz,
                rotation: Vec3::zero(),
                scale: Vec3::one(),
            },
            parent_name: Some(value.parent.clone()),
            parent_id: None,
            limit: JointLimitWrapper {
                lower: value.limit.lower,
                upper: value.limit.upper,
                effort: value.limit.effort,
                velocity: value.limit.velocity,
            },
            dynamics: match value.dynamics {
                Some(dynamics) => dynamics,
                None => Dynamics::none(),
            },
            local_frame1: Transform::from(value.origin),
            local_frame2: None,
            locked_axes: JointAxesMaskWrapper::from_bits(LOCKED_FIXED_AXES),
            limit_axes: JointAxesMaskWrapper::empty(),
            motor_axes: JointAxesMaskWrapper::empty(),
            coupled_axes: JointAxesMaskWrapper::empty(),
            contacts_enabled: true,
            enabled: true,
        }
    }
}

/// A link together with the joint that drives it, if one does.
#[derive(Clone, Copy, Debug, PartialEq, Eq)]
pub struct UrdfLinkage<'a, 'b> {
    pub link: &'a LinkWrapper,
    pub joint: Option<&'b JointWrapper>,
}

/// What is read of an entity when a graph is turned back into robot
/// descriptions.
#[derive(Clone, Debug, PartialEq, Eq)]
pub struct LinkQuery {
    pub name: Option<String>,
    pub structure: StructureFlag,
    pub inertial: Option<MassFlag>,
    pub visual: Option<FileCheckPicker>,
    pub collision: Option<ColliderFlag>,
    pub joint: Option<JointFlag>,
}

/// A [`LinkQuery`] with its texts as sequences of characters.
pub struct LinkQueryView {
    pub name: Option<Seq<char>>,
    pub structure: Seq<char>,
    pub inertial: Option<MassFlag>,
    pub visual: Option<FileCheckPickerView>,
    pub collision: Option<ColliderFlag>,
    pub joint: Option<JointFlagView>,
}

impl View for LinkQuery {
    type V = LinkQueryView;

    open spec fn view(&self) -> LinkQueryView {
        LinkQueryView {
            name: self.name.deep_view(),
            structure: self.structure@,
            inertial: self.inertial,
            visual: self.visual.deep_view(),
            collision: self.collision,
            joint: self.joint.deep_view(),
        }
    }
}

impl DeepView for LinkQuery {
    type V = LinkQueryView;

    open spec fn deep_view(&self) -> LinkQueryView {
        self@
    }
}

} // verus!
