//! 3D point arithmetic over fixed-point scalars.

use vstd::prelude::*;
use crate::fx;
use crate::fx::{LIM, POS_LIM};
use crate::vector3::{Vector3, vec_wf};

verus! {

/// A spatial location with an `x`, `y` and `z` coordinate. Coordinates are
/// fixed-point scalars kept within `[-POS_LIM, POS_LIM]`, so that a grid
/// padded around any set of points still has in-range cell centers.
#[derive(Clone, Copy, Debug, PartialEq, Eq, Structural)]
pub struct Point3 {
    pub x: i128,
    pub y: i128,
    pub z: i128,
}

/// Every coordinate is within the coordinate bound.
pub open spec fn point_wf(p: Point3) -> bool {
    &&& -POS_LIM <= p.x <= POS_LIM
    &&& -POS_LIM <= p.y <= POS_LIM
    &&& -POS_LIM <= p.z <= POS_LIM
}

pub open spec fn spec_porigin() -> Point3 {
    Point3 { x: 0, y: 0, z: 0 }
}

/// The vector from `b` to `a`. Coordinate differences of in-range points
/// stay within the vector bound, so this is exact.
pub open spec fn spec_psub(a: Point3, b: Point3) -> Vector3 {
    Vector3 { x: (a.x - b.x) as i128, y: (a.y - b.y) as i128, z: (a.z - b.z) as i128 }
}

/// The point reached from `a` along `v`, each coordinate clamped into the
/// coordinate bound.
pub open spec fn spec_padd(a: Point3, v: Vector3) -> Point3 {
    Point3 {
        x: fx::sat_pos(a.x + v.x) as i128,
        y: fx::sat_pos(a.y + v.y) as i128,
        z: fx::sat_pos(a.z + v.z) as i128,
    }
}

pub open spec fn spec_pmin(a: Point3, b: Point3) -> Point3 {
    Point3 {
        x: fx::spec_fmin(a.x as int, b.x as int) as i128,
        y: fx::spec_fmin(a.y as int, b.y as int) as i128,
        z: fx::spec_fmin(a.z as int, b.z as int) as i128,
    }
}

pub open spec fn spec_pmax(a: Point3, b: Point3) -> Point3 {
    Point3 {
        x: fx::spec_fmax(a.x as int, b.x as int) as i128,
        y: fx::spec_fmax(a.y as int, b.y as int) as i128,
        z: fx::spec_fmax(a.z as int, b.z as int) as i128,
    }
}

impl Point3 {
    /// Creates a new `Point3` at the nominated coordinates.
    pub fn new(x: i128, y: i128, z: i128) -> (r: Point3)
        requires
            -POS_LIM <= x <= POS_LIM,
            -POS_LIM <= y <= POS_LIM,
            -POS_LIM <= z <= POS_LIM,
        ensures
            r == (Point3 { x, y, z }),
            point_wf(r),
    {
        Point3 { x, y, z }
    }

    /// The point at `0, 0, 0`.
    pub fn origin() -> (r: Point3)
        ensures
            r == spec_porigin(),
            point_wf(r),
    {
        Point3 { x: 0, y: 0, z: 0 }
    }

    /// Componentwise minimum.
    pub fn min(&self, other: &Point3) -> (r: Point3)
        requires
            point_wf(*self),
            point_wf(*other),
        ensures
            r == spec_pmin(*self, *other),
            point_wf(r),
    {
        Point3 {
            x: fx::fmin(self.x, other.x),
            y: fx::fmin(self.y, other.y),
            z: fx::fmin(self.z, other.z),
        }
    }

    /// Componentwise maximum.
    pub fn max(&self, other: &Point3) -> (r: Point3)
        requires
            point_wf(*self),
            point_wf(*other),
        ensures
            r == spec_pmax(*self, *other),
            point_wf(r),
    {
        Point3 {
            x: fx::fmax(self.x, other.x),
            y: fx::fmax(self.y, other.y),
            z: fx::fmax(self.z, other.z),
        }
    }

    /// The vector from `other` to `self`. Accepts any coordinates within
    /// half the vector bound (in particular all valid points and all grid
    /// cell centers), so the difference is exact.
    pub fn sub(&self, other: &Point3) -> (r: Vector3)
        requires
            -fx::HALF_LIM <= self.x <= fx::HALF_LIM,
            -fx::HALF_LIM <= self.y <= fx::HALF_LIM,
            -fx::HALF_LIM <= self.z <= fx::HALF_LIM,
            -fx::HALF_LIM <= other.x <= fx::HALF_LIM,
            -fx::HALF_LIM <= other.y <= fx::HALF_LIM,
            -fx::HALF_LIM <= other.z <= fx::HALF_LIM,
        ensures
            r == spec_psub(*self, *other),
            vec_wf(r),
    {
        Vector3 { x: self.x - other.x, y: self.y - other.y, z: self.z - other.z }
    }

    /// The point reached from `self` along `v`; coordinates saturate at the
    /// coordinate bound.
    pub fn add_vector(&self, v: &Vector3) -> (r: Point3)
        requires
            point_wf(*self),
            vec_wf(*v),
        ensures
            r == spec_padd(*self, *v),
            point_wf(r),
    {
        Point3 {
            x: fx::sat_lim(self.x + v.x, POS_LIM),
            y: fx::sat_lim(self.y + v.y, POS_LIM),
            z: fx::sat_lim(self.z + v.z, POS_LIM),
        }
    }
}

} // verus!
