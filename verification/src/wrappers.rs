//! The records of a robot description and their conversions.

pub mod material_and_mesh;
pub mod urdf;
