//! Shapes and colours: what a link looks like and what it collides with.

use vstd::prelude::*;
use crate::error::{TranslationError, TranslationErrorView};
use crate::flags::{
    Color, FileCheckPicker, FileCheckPickerView, GeometryFile, GeometryFlag, MaterialFlag,
    Matrix3, MeshPrimitive,
};
use crate::mesh_path::{resolve_mesh_path, resolved};
use crate::scalar::{Scalar, Vec3};
use crate::wrappers::urdf::UrdfTransform;

verus! {

/// The shape of a visual or of a collision element.
#[derive(Clone, Debug, PartialEq, Eq)]
pub enum Geometry {
    Box { size: Vec3 },
    Cylinder { radius: Scalar, length: Scalar },
    Capsule { radius: Scalar, length: Scalar },
    Sphere { radius: Scalar },
    /// A shape kept in a file, named as `package://` and a path.
    Mesh { filename: String, scale: Option<Vec3> },
}

/// A [`Geometry`] with the file's name as a sequence of characters.
pub enum GeometryView {
    Box { size: Vec3 },
    Cylinder { radius: Scalar, length: Scalar },
    Capsule { radius: Scalar, length: Scalar },
    Sphere { radius: Scalar },
    Mesh { filename: Seq<char>, scale: Option<Vec3> },
}

impl View for Geometry {
    type V = GeometryView;

    open spec fn view(&self) -> GeometryView {
        match self {
            Geometry::Box { size } => GeometryView::Box { size: *size },
            Geometry::Cylinder { radius, length } => GeometryView::Cylinder {
                radius: *radius,
                length: *length,
            },
            Geometry::Capsule { radius, length } => GeometryView::Capsule {
                radius: *radius,
                length: *length,
            },
            Geometry::Sphere { radius } => GeometryView::Sphere { radius: *radius },
            Geometry::Mesh { filename, scale } => GeometryView::Mesh {
                filename: filename@,
                scale: *scale,
            },
        }
    }
}

/// A named way of painting a shape.
#[derive(Clone, Debug, PartialEq, Eq)]
pub struct Material {
    pub name: String,
    pub color: Option<Color>,
}

/// A [`Material`] with its name as a sequence of characters.
pub struct MaterialView {
    pub name: Seq<char>,
    pub color: Option<Color>,
}

impl View for Material {
    type V = MaterialView;

    open spec fn view(&self) -> MaterialView {
        MaterialView { name: self.name@, color: self.color }
    }
}

impl DeepView for Material {
    type V = MaterialView;

    open spec fn deep_view(&self) -> MaterialView {
        self@
    }
}

/// What is drawn for a link: a shape, where it sits and how it is painted.
#[derive(Clone, Debug, PartialEq, Eq)]
pub struct VisualWrapper {
    pub origin: UrdfTransform,
    pub geometry: Geometry,
    pub material: Option<Material>,
}

/// A [`VisualWrapper`] with its texts as sequences of characters.
pub struct VisualView {
    pub origin: UrdfTransform,
    pub geometry: GeometryView,
    pub material: Option<MaterialView>,
}

impl View for VisualWrapper {
    type V = VisualView;

    open spec fn view(&self) -> VisualView {
        VisualView {
            origin: self.origin,
            geometry: self.geometry@,
            material: self.material.deep_view(),
        }
    }
}

impl DeepView for VisualWrapper {
    type V = VisualView;

    open spec fn deep_view(&self) -> VisualView {
        self@
    }
}

/// What a link collides with: a shape and where it sits.
#[derive(Clone, Debug, PartialEq, Eq)]
pub struct CollisionWrapper {
    pub origin: UrdfTransform,
    pub geometry: Geometry,
}

/// A [`CollisionWrapper`] with its texts as sequences of characters.
pub struct CollisionView {
    pub origin: UrdfTransform,
    pub geometry: GeometryView,
}

impl View for CollisionWrapper {
    type V = CollisionView;

    open spec fn view(&self) -> CollisionView {
        CollisionView { origin: self.origin, geometry: self.geometry@ }
    }
}

impl DeepView for CollisionWrapper {
    type V = CollisionView;

    open spec fn deep_view(&self) -> CollisionView {
        self@
    }
}

/// Something that has a shape.
pub trait HasGeometry {
    /// The shape, as contracts see it.
    spec fn geometry(&self) -> GeometryView;

    /// The shape.
    fn get_geometry(&self) -> (geometry: &Geometry)
        ensures
            geometry@ == self.geometry(),
    ;
}

impl HasGeometry for VisualWrapper {
    open spec fn geometry(&self) -> GeometryView {
        self.geometry@
    }

    fn get_geometry(&self) -> (geometry: &Geometry) {
        &self.geometry
    }
}

impl HasGeometry for CollisionWrapper {
    open spec fn geometry(&self) -> GeometryView {
        self.geometry@
    }

    fn get_geometry(&self) -> (geometry: &Geometry) {
        &self.geometry
    }
}

/// The change of axes that lines a box up.
pub open spec fn box_alignment() -> Matrix3 {
    Matrix3(
        Vec3 { x: Scalar::spec_zero(), y: Scalar::spec_zero(), z: Scalar::spec_neg_one() },
        Vec3 { x: Scalar::spec_zero(), y: Scalar::spec_one(), z: Scalar::spec_zero() },
        Vec3 { x: Scalar::spec_one(), y: Scalar::spec_zero(), z: Scalar::spec_zero() },
    )
}

/// The change of axes that lines a cylinder up.
pub open spec fn cylinder_alignment() -> Matrix3 {
    Matrix3(
        Vec3 { x: Scalar::spec_neg_one(), y: Scalar::spec_zero(), z: Scalar::spec_zero() },
        Vec3 { x: Scalar::spec_zero(), y: Scalar::spec_zero(), z: Scalar::spec_one() },
        Vec3 { x: Scalar::spec_zero(), y: Scalar::spec_one(), z: Scalar::spec_zero() },
    )
}

/// The attribute that stands for the shape `geometry`.
///
/// A box, a cylinder, a capsule and a sphere keep their measures. The box and
/// the cylinder each get a change of axes of their own, since the graph's
/// box and cylinder lie along other axes than the description's; the capsule
/// and the sphere get none. A mesh becomes the path of its file, which fails
/// where [`resolved`] fails.
pub open spec fn flag_geometry(geometry: GeometryView) -> Result<
    FileCheckPickerView,
    TranslationErrorView,
> {
    match geometry {
        GeometryView::Box { size } => Ok(
            FileCheckPickerView::PureComponent(
                GeometryFlag {
                    primitive: MeshPrimitive::Cuboid { size },
                    orientation_matrix: box_alignment(),
                },
            ),
        ),
        GeometryView::Cylinder { radius, length } => Ok(
            FileCheckPickerView::PureComponent(
                GeometryFlag {
                    primitive: MeshPrimitive::Cylinder { radius, length },
                    orientation_matrix: cylinder_alignment(),
                },
            ),
        ),
        GeometryView::Capsule { radius, length } => Ok(
            FileCheckPickerView::PureComponent(
                GeometryFlag {
                    primitive: MeshPrimitive::Capsule { radius, length },
                    orientation_matrix: Matrix3::spec_identity(),
                },
            ),
        ),
        GeometryView::Sphere { radius } => Ok(
            FileCheckPickerView::PureComponent(
                GeometryFlag {
                    primitive: MeshPrimitive::Sphere { radius },
                    orientation_matrix: Matrix3::spec_identity(),
                },
            ),
        ),
        GeometryView::Mesh { filename, scale } => match resolved(filename) {
            Ok(path) => Ok(FileCheckPickerView::PathComponent(path)),
            Err(e) => Err(e),
        },
    }
}

/// The attribute that stands for the shape of `wrapper`.
pub fn to_flag_geometry<T: HasGeometry>(wrapper: &T) -> (picked: Result<
    FileCheckPicker,
    TranslationError,
>)
    ensures
        match picked {
            Ok(p) => flag_geometry(wrapper.geometry()) == Ok::<
                FileCheckPickerView,
                TranslationErrorView,
            >(p@),
            Err(e) => flag_geometry(wrapper.geometry()) == Err::<
                FileCheckPickerView,
                TranslationErrorView,
            >(e@),
        },
{
    let box_align = Matrix3(
        Vec3::new(Scalar::zero(), Scalar::zero(), Scalar::neg_one()),
        Vec3::new(Scalar::zero(), Scalar::one(), Scalar::zero()),
        Vec3::new(Scalar::one(), Scalar::zero(), Scalar::zero()),
    );
    let cylinder_align = Matrix3(
        Vec3::new(Scalar::neg_one(), Scalar::zero(), Scalar::zero()),
        Vec3::new(Scalar::zero(), Scalar::zero(), Scalar::one()),
        Vec3::new(Scalar::zero(), Scalar::one(), Scalar::zero()),
    );
    match wrapper.get_geometry() {
        Geometry::Box { size } => Ok(
            FileCheckPicker::PureComponent(
                GeometryFlag {
                    primitive: MeshPrimitive::Cuboid { size: *size },
                    orientation_matrix: box_align,
                },
            ),
        ),
        Geometry::Cylinder { radius, length } => Ok(
            FileCheckPicker::PureComponent(
                GeometryFlag {
                    primitive: MeshPrimitive::Cylinder { radius: *radius, length: *length },
                    orientation_matrix: cylinder_align,
                },
            ),
        ),
        Geometry::Capsule { radius, length } => Ok(
            FileCheckPicker::PureComponent(
                GeometryFlag {
                    primitive: MeshPrimitive::Capsule { radius: *radius, length: *length },
                    orientation_matrix: Matrix3::identity(),
                },
            ),
        ),
        Geometry::Sphere { radius } => Ok(
            FileCheckPicker::PureComponent(
                GeometryFlag {
                    primitive: MeshPrimitive::Sphere { radius: *radius },
                    orientation_matrix: Matrix3::identity(),
                },
            ),
        ),
        Geometry::Mesh { filename, scale } => match resolve_mesh_path(filename.as_str()) {
            Ok(source) => Ok(FileCheckPicker::PathComponent(GeometryFile { source })),
            Err(e) => Err(e),
        },
    }
}

impl FileCheckPicker {
    /// The attribute that stands for the shape of `value`.
    pub fn from<T: HasGeometry>(value: &T) -> (picked: Result<FileCheckPicker, TranslationError>)
        ensures
            match picked {
                Ok(p) => flag_geometry(value.geometry()) == Ok::<
                    FileCheckPickerView,
                    TranslationErrorView,
                >(p@),
                Err(e) => flag_geometry(value.geometry()) == Err::<
                    FileCheckPickerView,
                    TranslationErrorView,
                >(e@),
            },
    {
        to_flag_geometry(value)
    }
}

/// The colour with which `visual` is drawn: the colour of its material where
/// it has one with a colour, opaque white where it has not.
pub open spec fn material_flag(visual: VisualView) -> MaterialFlag {
    match visual.material {
        Some(material) => match material.color {
            Some(color) => MaterialFlag { color },
            None => MaterialFlag { color: Color::spec_white() },
        },
        None => MaterialFlag { color: Color::spec_white() },
    }
}

impl MaterialFlag {
    /// The colour with which `value` is drawn.
    pub fn from(value: &VisualWrapper) -> (flag: MaterialFlag)
        ensures
            flag == material_flag(value@),
    {
        if let Some(material) = &value.material {
            if let Some(color) = &material.color {
                MaterialFlag { color: *color }
            } else {
                MaterialFlag::default()
            }
        } else {
            MaterialFlag::default()
        }
    }
}

impl Default for MaterialFlag {
    /// Opaque white.
    fn default() -> (flag: MaterialFlag)
        ensures
            flag == (MaterialFlag { color: Color::spec_white() }),
    {
        MaterialFlag { color: Color::white() }
    }
}

} // verus!
