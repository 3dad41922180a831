//! Error kinds of the simulation library.

use vstd::prelude::*;

verus! {

/// The ways an operation of this library can fail.
#[derive(Clone, Copy, Debug, PartialEq, Eq, Structural)]
pub enum VortexError {
    /// A velocity-inversion constructor was given a target point that
    /// coincides with the candidate position, or a geometry for which the
    /// implied vorticity direction is undefined.
    DegenerateGeometry,
    /// A hierarchical evaluator was built with a level count of zero or
    /// beyond the supported depth.
    InvalidLevelCount,
    /// A hierarchical evaluator holds grid and cell-info pyramids of
    /// different heights.
    InconsistentHierarchy,
}

impl VortexError {
    /// A short description of the error.
    pub fn as_str(&self) -> (r: &'static str)
    {
        match self {
            VortexError::DegenerateGeometry => "target and position are degenerately placed",
            VortexError::InvalidLevelCount => "level count must be positive and within the supported depth",
            VortexError::InconsistentHierarchy => "grid and info pyramids have different heights",
        }
    }
}

} // verus!
