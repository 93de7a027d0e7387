//! Conversion between a robot description and a graph of entities.
//!
//! A robot description is a tree: rigid links, and joints that say how one
//! link moves against another. [`robot::Urdf::into_entities`] turns such a
//! tree into a graph with one entity for each link, each entity carrying the
//! attributes of its link and of the joint that drives it.
//! [`robot::Urdf::into_hashmap`] goes the other way and collects the joints
//! of entities into one description for each robot.
//!
//! - [`scalar`]: real numbers as bit patterns.
//! - [`names`]: tables keyed by name.
//! - [`robot`] and [`wrappers`]: the records of a robot description.
//! - [`flags`] and [`graph`]: the attributes of an entity, and the graph.
//! - [`mesh_path`] and [`error`]: mesh references and how they fail.
//! - [`forward`], [`reverse`] and [`round_trip`]: the two conversions and
//!   what holds of one followed by the other.
//!
//! The library does no input or output and no arithmetic on real numbers.
//! Reading files, talking to a renderer or a physics engine, and turning
//! angles into quaternions are left to the caller.

pub mod error;
pub mod flags;
pub mod forward;
pub mod graph;
pub mod mesh_path;
pub mod names;
pub mod reverse;
pub mod robot;
pub mod round_trip;
pub mod scalar;
pub mod wrappers;
