//! The attributes that an entity of the graph can carry.
//!
//! Each attribute is a small record of its own. None of them refers to
//! another entity except by name. An attribute that holds text has a view in
//! which the text is a `Seq<char>`; the others are plain values and stand for
//! themselves in contracts.

use vstd::prelude::*;
use crate::scalar::{Scalar, Vec3};

verus! {

/// A colour in linear RGB with an alpha channel.
#[derive(Clone, Copy, Debug, PartialEq, Eq, Structural)]
pub struct Color {
    pub red: Scalar,
    pub green: Scalar,
    pub blue: Scalar,
    pub alpha: Scalar,
}

impl Color {
    /// Opaque white.
    pub open spec fn spec_white() -> Color {
        Color {
            red: Scalar::spec_one(),
            green: Scalar::spec_one(),
            blue: Scalar::spec_one(),
            alpha: Scalar::spec_one(),
        }
    }

    /// Opaque white.
    #[verifier::when_used_as_spec(spec_white)]
    pub fn white() -> (c: Color)
        ensures
            c == Color::spec_white(),
    {
        Color { red: Scalar::one(), green: Scalar::one(), blue: Scalar::one(), alpha: Scalar::one() }
    }
}

/// Three vectors, used as a fixed change of axes.
#[derive(Clone, Copy, Debug, PartialEq, Eq, Structural)]
pub struct Matrix3(pub Vec3, pub Vec3, pub Vec3);

impl Matrix3 {
    /// The three unit vectors in their usual order: no change of axes.
    pub open spec fn spec_identity() -> Matrix3 {
        Matrix3(
            Vec3 { x: Scalar::spec_one(), y: Scalar::spec_zero(), z: Scalar::spec_zero() },
            Vec3 { x: Scalar::spec_zero(), y: Scalar::spec_one(), z: Scalar::spec_zero() },
            Vec3 { x: Scalar::spec_zero(), y: Scalar::spec_zero(), z: Scalar::spec_one() },
        )
    }

    /// The three unit vectors in their usual order: no change of axes.
    #[verifier::when_used_as_spec(spec_identity)]
    pub fn identity() -> (m: Matrix3)
        ensures
            m == Matrix3::spec_identity(),
    {
        Matrix3(
            Vec3 { x: Scalar::one(), y: Scalar::zero(), z: Scalar::zero() },
            Vec3 { x: Scalar::zero(), y: Scalar::one(), z: Scalar::zero() },
            Vec3 { x: Scalar::zero(), y: Scalar::zero(), z: Scalar::one() },
        )
    }

    /// Three zero vectors.
    pub open spec fn spec_zero() -> Matrix3 {
        Matrix3(Vec3::spec_zero(), Vec3::spec_zero(), Vec3::spec_zero())
    }

    /// Three zero vectors.
    #[verifier::when_used_as_spec(spec_zero)]
    pub fn zero() -> (m: Matrix3)
        ensures
            m == Matrix3::spec_zero(),
    {
        Matrix3(Vec3::zero(), Vec3::zero(), Vec3::zero())
    }
}

/// A placement in space: an offset, a rotation and a scale.
///
/// The rotation is held as three angles in radians, turned about the X, the
/// Y and then the Z axis. Turning them into whatever a renderer wants, a
/// quaternion for one, needs arithmetic on real numbers and is left to the
/// caller.
#[derive(Clone, Copy, Debug, PartialEq, Eq, Structural)]
pub struct Transform {
    pub translation: Vec3,
    pub rotation: Vec3,
    pub scale: Vec3,
}

impl Transform {
    /// No offset, no rotation, scale one.
    pub open spec fn spec_identity() -> Transform {
        Transform {
            translation: Vec3::spec_zero(),
            rotation: Vec3::spec_zero(),
            scale: Vec3::spec_one(),
        }
    }

    /// No offset, no rotation, scale one.
    #[verifier::when_used_as_spec(spec_identity)]
    pub fn identity() -> (t: Transform)
        ensures
            t == Transform::spec_identity(),
    {
        Transform { translation: Vec3::zero(), rotation: Vec3::zero(), scale: Vec3::one() }
    }
}

/// Where an entity stands: the placement that the host asked for, followed
/// by a rotation about the X axis by a number of quarter turns.
///
/// A robot description has its Z axis pointing up; the graph is drawn with Y
/// pointing up. The number of quarter turns says how the host has to turn the
/// entity to make up for that.
#[derive(Clone, Copy, Debug, PartialEq, Eq, Structural)]
pub struct SpawnTransform {
    pub x_quarter_turns: i8,
}

/// Marks an entity as a link and says where its shape sits in it.
#[derive(Clone, Copy, Debug, PartialEq, Eq, Structural)]
pub struct LinkFlag {
    pub geom_offset: Vec3,
}

/// The mass of an entity.
#[derive(Clone, Copy, Debug, PartialEq, Eq, Structural)]
pub struct MassFlag {
    pub mass: Scalar,
}

/// A shape that is given by a few numbers.
#[derive(Clone, Copy, Debug, PartialEq, Eq, Structural)]
pub enum MeshPrimitive {
    Cuboid { size: Vec3 },
    Cylinder { radius: Scalar, length: Scalar },
    Capsule { radius: Scalar, length: Scalar },
    Sphere { radius: Scalar },
}

/// A shape held in memory, with the change of axes that lines it up.
#[derive(Clone, Copy, Debug, PartialEq, Eq, Structural)]
pub struct GeometryFlag {
    pub primitive: MeshPrimitive,
    pub orientation_matrix: Matrix3,
}

/// The colour with which an entity is drawn.
#[derive(Clone, Copy, Debug, PartialEq, Eq, Structural)]
pub struct MaterialFlag {
    pub color: Color,
}

/// How the collision shape of an entity is found.
#[derive(Clone, Copy, Debug, PartialEq, Eq, Structural)]
pub enum ColliderFlag {
    /// The convex hull of the entity's shape.
    Convex,
}

pub const GROUP_1: u32 = 0x0000_0001;

pub const GROUP_2: u32 = 0x0000_0002;

/// A set of the solver's thirty-two groups, one bit for each.
#[derive(Clone, Copy, Debug, PartialEq, Eq, Structural)]
pub struct GroupWrapper {
    pub bits: u32,
}

/// The solver groups an entity is in, and those that it meets.
#[derive(Clone, Copy, Debug, PartialEq, Eq, Structural)]
pub struct SolverGroupsFlag {
    pub memberships: GroupWrapper,
    pub filters: GroupWrapper,
}

/// Marks an entity whose shape still has to be moved by its offset.
#[derive(Clone, Copy, Debug, PartialEq, Eq, Structural)]
pub struct GeometryShiftMarked {}

/// Whether the physics engine moves an entity.
#[derive(Clone, Copy, Debug, PartialEq, Eq, Structural)]
pub enum RigidBodyFlag {
    Fixed,
    Dynamic,
}

/// Whether collisions of an entity are looked for between two steps too.
#[derive(Clone, Copy, Debug, PartialEq, Eq, Structural)]
pub struct CcdFlag {
    pub enabled: bool,
}

/// Whether an entity is drawn.
#[derive(Clone, Copy, Debug, PartialEq, Eq, Structural)]
pub enum Visibility {
    Inherited,
    Hidden,
    Visible,
}

/// A matrix shown beside an entity while its axes are being looked into.
#[derive(Clone, Copy, Debug, PartialEq, Eq, Structural)]
pub struct MatrixVisComponentTest {
    pub matrix: Matrix3,
}

pub const AXIS_X: u8 = 0x01;

pub const AXIS_Y: u8 = 0x02;

pub const AXIS_Z: u8 = 0x04;

pub const AXIS_ANG_X: u8 = 0x08;

pub const AXIS_ANG_Y: u8 = 0x10;

pub const AXIS_ANG_Z: u8 = 0x20;

/// All six axes: what a joint locks that allows no motion at all.
pub const LOCKED_FIXED_AXES: u8 = 0x3f;

/// A set of the six axes of motion of a joint: one bit for sliding along
/// each of X, Y and Z, one for turning about each of them.
#[derive(Clone, Copy, Debug, PartialEq, Eq, Structural)]
pub struct JointAxesMaskWrapper {
    pub bits: u8,
}

impl JointAxesMaskWrapper {
    pub open spec fn spec_empty() -> JointAxesMaskWrapper {
        JointAxesMaskWrapper { bits: 0 }
    }

    /// The set of no axes.
    #[verifier::when_used_as_spec(spec_empty)]
    pub fn empty() -> (mask: JointAxesMaskWrapper)
        ensures
            mask == JointAxesMaskWrapper::spec_empty(),
    {
        JointAxesMaskWrapper { bits: 0 }
    }

    pub open spec fn spec_from_bits(bits: u8) -> JointAxesMaskWrapper {
        JointAxesMaskWrapper { bits }
    }

    /// The set with the given bits.
    #[verifier::when_used_as_spec(spec_from_bits)]
    pub fn from_bits(bits: u8) -> (mask: JointAxesMaskWrapper)
        ensures
            mask == JointAxesMaskWrapper::spec_from_bits(bits),
    {
        JointAxesMaskWrapper { bits }
    }

    /// Every axis in `axes` is in this set.
    pub open spec fn spec_contains(self, axes: u8) -> bool {
        self.bits & axes == axes
    }

    /// Whether every axis in `axes` is in this set.
    #[verifier::when_used_as_spec(spec_contains)]
    pub fn contains(self, axes: u8) -> (b: bool)
        ensures
            b == self.spec_contains(axes),
    {
        self.bits & axes == axes
    }
}

/// The range of a joint, and the most force and speed it may be driven with.
#[derive(Clone, Copy, Debug, PartialEq, Eq, Structural)]
pub struct JointLimitWrapper {
    pub lower: Scalar,
    pub upper: Scalar,
    pub effort: Scalar,
    pub velocity: Scalar,
}

/// What slows a joint down.
#[derive(Clone, Copy, Debug, PartialEq, Eq, Structural)]
pub struct Dynamics {
    pub damping: Scalar,
    pub friction: Scalar,
}

impl Dynamics {
    /// Neither damping nor friction.
    pub open spec fn spec_none() -> Dynamics {
        Dynamics { damping: Scalar::spec_zero(), friction: Scalar::spec_zero() }
    }

    /// Neither damping nor friction.
    #[verifier::when_used_as_spec(spec_none)]
    pub fn none() -> (d: Dynamics)
        ensures
            d == Dynamics::spec_none(),
    {
        Dynamics { damping: Scalar::zero(), friction: Scalar::zero() }
    }
}

/// The robot that an entity belongs to.
#[derive(Debug, PartialEq, Eq)]
pub struct StructureFlag {
    pub name: String,
}

impl View for StructureFlag {
    type V = Seq<char>;

    open spec fn view(&self) -> Seq<char> {
        self.name@
    }
}

impl DeepView for StructureFlag {
    type V = Seq<char>;

    open spec fn deep_view(&self) -> Seq<char> {
        self.name@
    }
}

impl Clone for StructureFlag {
    fn clone(&self) -> (copy: Self)
        ensures
            copy@ == self@,
    {
        StructureFlag { name: self.name.clone() }
    }
}

/// A shape that is kept in a file.
#[derive(Clone, Debug, PartialEq, Eq)]
pub struct GeometryFile {
    /// The path of the file below the folder of packages.
    pub source: String,
}

/// A shape: either one held in memory or one kept in a file.
#[derive(Debug, PartialEq, Eq)]
pub enum FileCheckPicker {
    PureComponent(GeometryFlag),
    PathComponent(GeometryFile),
}

/// What a [`FileCheckPicker`] holds, with the path as a sequence of
/// characters.
pub enum FileCheckPickerView {
    PureComponent(GeometryFlag),
    PathComponent(Seq<char>),
}

impl View for FileCheckPicker {
    type V = FileCheckPickerView;

    open spec fn view(&self) -> FileCheckPickerView {
        match self {
            FileCheckPicker::PureComponent(flag) => FileCheckPickerView::PureComponent(*flag),
            FileCheckPicker::PathComponent(file) => FileCheckPickerView::PathComponent(
                file.source@,
            ),
        }
    }
}

impl DeepView for FileCheckPicker {
    type V = FileCheckPickerView;

    open spec fn deep_view(&self) -> FileCheckPickerView {
        self@
    }
}

impl Clone for FileCheckPicker {
    fn clone(&self) -> (copy: Self)
        ensures
            copy@ == self@,
    {
        match self {
            FileCheckPicker::PureComponent(flag) => FileCheckPicker::PureComponent(*flag),
            FileCheckPicker::PathComponent(file) => FileCheckPicker::PathComponent(
                GeometryFile { source: file.source.clone() },
            ),
        }
    }
}

/// The joint that drives an entity.
///
/// The entity is the child of the joint. The parent is known by its name
/// alone: when the joint is read, the parent's entity may not exist yet, and
/// it may never exist.
#[derive(Debug, PartialEq, Eq)]
pub struct JointFlag {
    /// The offset of the joint from the parent.
    pub offset: Transform,
    pub parent_name: Option<String>,
    /// The place of the parent's entity, once somebody has looked it up.
    pub parent_id: Option<usize>,
    pub limit: JointLimitWrapper,
    pub dynamics: Dynamics,
    /// The frame of the joint, as seen from the parent.
    pub local_frame1: Transform,
    /// The frame of the joint, as seen from the child.
    pub local_frame2: Option<Transform>,
    pub locked_axes: JointAxesMaskWrapper,
    pub limit_axes: JointAxesMaskWrapper,
    pub motor_axes: JointAxesMaskWrapper,
    pub coupled_axes: JointAxesMaskWrapper,
    pub contacts_enabled: bool,
    pub enabled: bool,
}

/// What a [`JointFlag`] holds, with the parent's name as a sequence of
/// characters.
pub struct JointFlagView {
    pub offset: Transform,
    pub parent_name: Option<Seq<char>>,
    pub parent_id: Option<usize>,
    pub limit: JointLimitWrapper,
    pub dynamics: Dynamics,
    pub local_frame1: Transform,
    pub local_frame2: Option<Transform>,
    pub locked_axes: JointAxesMaskWrapper,
    pub limit_axes: JointAxesMaskWrapper,
    pub motor_axes: JointAxesMaskWrapper,
    pub coupled_axes: JointAxesMaskWrapper,
    pub contacts_enabled: bool,
    pub enabled: bool,
}

impl View for JointFlag {
    type V = JointFlagView;

    open spec fn view(&self) -> JointFlagView {
        JointFlagView {
            offset: self.offset,
            parent_name: self.parent_name.deep_view(),
            parent_id: self.parent_id,
            limit: self.limit,
            dynamics: self.dynamics,
            local_frame1: self.local_frame1,
            local_frame2: self.local_frame2,
            locked_axes: self.locked_axes,
            limit_axes: self.limit_axes,
            motor_axes: self.motor_axes,
            coupled_axes: self.coupled_axes,
            contacts_enabled: self.contacts_enabled,
            enabled: self.enabled,
        }
    }
}

impl DeepView for JointFlag {
    type V = JointFlagView;

    open spec fn deep_view(&self) -> JointFlagView {
        self@
    }
}

impl Clone for JointFlag {
    fn clone(&self) -> (copy: Self)
        ensures
            copy@ == self@,
    {
        let parent_name = match &self.parent_name {
            Some(name) => Some(name.clone()),
            None => None,
        };
        JointFlag {
            offset: self.offset,
            parent_name,
            parent_id: self.parent_id,
            limit: self.limit,
            dynamics: self.dynamics,
            local_frame1: self.local_frame1,
            local_frame2: self.local_frame2,
            locked_axes: self.locked_axes,
            limit_axes: self.limit_axes,
            motor_axes: self.motor_axes,
            coupled_axes: self.coupled_axes,
            contacts_enabled: self.contacts_enabled,
            enabled: self.enabled,
        }
    }
}

} // verus!
