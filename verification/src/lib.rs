//! Fluid simulation engine using the vortex particle method. The fluid is
//! modelled by a set of particles (vortons) carrying the fluid vorticity;
//! the particles are convected in a Lagrangian manner by the velocity field
//! that they themselves induce.
//!
//! All quantities are fixed-point numbers: an `i128` holds the real value
//! multiplied by `fx::SCALE`, and every operation has an exact, total,
//! saturating semantics stated by the spec functions in `fx`.

pub mod config;
pub mod configuration;
pub mod error;
pub mod fx;
pub mod grid;
pub mod point3;
pub mod profiling;
pub mod simulation;
pub mod super_vorton;
pub mod vector3;
pub mod vorton;
pub mod vorton_to_velocity_simple;
pub mod vorton_to_velocity_tree;

pub use config::{Action, Config, Initial, Output, Save};
pub use configuration::{Empty, InitialConditions};
pub use error::VortexError;
pub use fx::{LIM, POS_LIM, SCALE};
pub use grid::Grid;
pub use point3::Point3;
pub use profiling::{Phase, Profiling};
pub use simulation::{Simulation, VortonToVelocityAlgorithm};
pub use super_vorton::{Aggregatable, SuperVorton};
pub use vector3::Vector3;
pub use vorton::Vorton;
pub use vorton_to_velocity_simple::VortonToVelocitySimple;
pub use vorton_to_velocity_tree::VortonToVelocityTree;
