//! The run plan of a simulation driver: where the state comes from, what is
//! done with it, and where results go. A front end fills this in; the
//! library defines its meaning.

use vstd::prelude::*;
use crate::fx::LIM;
use crate::simulation::VortonToVelocityAlgorithm;

verus! {

/// Where the simulation state comes from.
pub enum Initial {
    /// Build a fresh simulation from the case file at this path.
    Init(String),
    /// Resume from the saved simulation at this path.
    Restart(String),
    /// No simulation.
    Nothing,
}

/// Whether the final state is kept.
pub enum Save {
    /// Write the simulation to this path when done.
    Save(String),
    /// Discard the state.
    Nothing,
}

/// What is done with the simulation.
pub enum Action {
    /// Run the stepping loop.
    Run,
    /// Only load (and possibly save) the state.
    Nothing,
}

/// Where per-iteration results go.
pub enum Output {
    /// Particle positions and vorticity magnitudes, one file per iteration,
    /// into this directory.
    CSV(String),
    /// Velocity sampled over a regular grid into this directory.
    Velocity(String),
    /// No output.
    Nothing,
}

/// A complete run plan.
pub struct Config {
    pub action: Action,
    pub output: Output,
    pub initial: Initial,
    pub save: Save,
    pub n_iterations: usize,
    pub time_step: i128,
    pub vorton_to_velocity_algorithm: VortonToVelocityAlgorithm,
}

/// A plan the stepping loop accepts: a positive, in-range time step.
pub open spec fn config_wf(c: Config) -> bool {
    1 <= c.time_step <= LIM
}

impl Config {
    /// Whether the stepping loop accepts this plan.
    pub fn is_valid(&self) -> (r: bool)
        ensures
            r == config_wf(*self),
    {
        1 <= self.time_step && self.time_step <= LIM
    }
}

} // verus!
