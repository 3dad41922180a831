//! The interface to an initial-conditions provider: the domain to seed, the
//! vorticity field to sample over it, and the ambient velocity.

use vstd::prelude::*;
use crate::point3::{Point3, point_wf};
use crate::vector3::{Vector3, vec_wf};

verus! {

/// What a flow case supplies to seed a simulation: a bounding domain, a
/// vorticity field to sample, and the free-stream velocity.
pub trait InitialConditions {
    /// The uniform background velocity of the flow.
    fn free_stream_velocity(&self) -> (r: Vector3)
        ensures
            vec_wf(r),
    ;

    /// The corners of the domain that holds all initial vorticity.
    fn domain(&self) -> (r: (Point3, Point3))
        ensures
            point_wf(r.0),
            point_wf(r.1),
    ;

    /// The vorticity of the flow at `p`.
    fn vorticity(&self, p: &Point3) -> (r: Vector3)
        requires
            point_wf(*p),
        ensures
            vec_wf(r),
    ;
}

/// The trivial flow case: no vorticity anywhere, a uniform stream along the
/// `x` axis over a cube of 20 units around the origin.
#[derive(Clone, Copy, Debug, PartialEq, Eq, Structural)]
pub struct Empty {}

impl Empty {
    pub fn new() -> (r: Empty)
        ensures
            r == (Empty {  }),
    {
        Empty {  }
    }
}

impl InitialConditions for Empty {
    fn free_stream_velocity(&self) -> (r: Vector3) {
        Vector3::new(2 * crate::fx::SCALE, 0, 0)
    }

    fn domain(&self) -> (r: (Point3, Point3)) {
        (
            Point3::new(-10 * crate::fx::SCALE, -10 * crate::fx::SCALE, -10 * crate::fx::SCALE),
            Point3::new(10 * crate::fx::SCALE, 10 * crate::fx::SCALE, 10 * crate::fx::SCALE),
        )
    }

    fn vorticity(&self, _p: &Point3) -> (r: Vector3) {
        Vector3::zero()
    }
}

} // verus!
