//! 3D vector arithmetic over fixed-point scalars.

use vstd::prelude::*;
use crate::fx;
use crate::fx::{LIM, SCALE};

verus! {

/// A 3D vector. Each component is a fixed-point scalar (see `fx`), kept
/// within `[-LIM, LIM]` by every operation.
#[derive(Clone, Copy, Debug, PartialEq, Eq, Structural)]
pub struct Vector3 {
    pub x: i128,
    pub y: i128,
    pub z: i128,
}

/// Every component is within the general saturation bound.
pub open spec fn vec_wf(v: Vector3) -> bool {
    &&& -LIM <= v.x <= LIM
    &&& -LIM <= v.y <= LIM
    &&& -LIM <= v.z <= LIM
}

pub open spec fn spec_vzero() -> Vector3 {
    Vector3 { x: 0, y: 0, z: 0 }
}

pub open spec fn spec_unit_x() -> Vector3 {
    Vector3 { x: SCALE, y: 0, z: 0 }
}

pub open spec fn spec_unit_y() -> Vector3 {
    Vector3 { x: 0, y: SCALE, z: 0 }
}

pub open spec fn spec_unit_z() -> Vector3 {
    Vector3 { x: 0, y: 0, z: SCALE }
}

pub open spec fn spec_vadd(a: Vector3, b: Vector3) -> Vector3 {
    Vector3 {
        x: fx::spec_fadd(a.x as int, b.x as int) as i128,
        y: fx::spec_fadd(a.y as int, b.y as int) as i128,
        z: fx::spec_fadd(a.z as int, b.z as int) as i128,
    }
}

pub open spec fn spec_vsub(a: Vector3, b: Vector3) -> Vector3 {
    Vector3 {
        x: fx::spec_fsub(a.x as int, b.x as int) as i128,
        y: fx::spec_fsub(a.y as int, b.y as int) as i128,
        z: fx::spec_fsub(a.z as int, b.z as int) as i128,
    }
}

pub open spec fn spec_vscale(a: Vector3, l: int) -> Vector3 {
    Vector3 {
        x: fx::spec_fmul(a.x as int, l) as i128,
        y: fx::spec_fmul(a.y as int, l) as i128,
        z: fx::spec_fmul(a.z as int, l) as i128,
    }
}

pub open spec fn spec_vdot(a: Vector3, b: Vector3) -> int {
    fx::spec_fadd(
        fx::spec_fadd(
            fx::spec_fmul(a.x as int, b.x as int),
            fx::spec_fmul(a.y as int, b.y as int),
        ),
        fx::spec_fmul(a.z as int, b.z as int),
    )
}

pub open spec fn spec_vcross(a: Vector3, b: Vector3) -> Vector3 {
    Vector3 {
        x: fx::spec_fsub(
            fx::spec_fmul(a.y as int, b.z as int),
            fx::spec_fmul(a.z as int, b.y as int),
        ) as i128,
        y: fx::spec_fsub(
            fx::spec_fmul(a.z as int, b.x as int),
            fx::spec_fmul(a.x as int, b.z as int),
        ) as i128,
        z: fx::spec_fsub(
            fx::spec_fmul(a.x as int, b.y as int),
            fx::spec_fmul(a.y as int, b.x as int),
        ) as i128,
    }
}

/// Componentwise fixed-point division by a positive scalar.
pub open spec fn spec_vdiv(a: Vector3, d: int) -> Vector3 {
    Vector3 {
        x: fx::spec_fdiv(a.x as int, d) as i128,
        y: fx::spec_fdiv(a.y as int, d) as i128,
        z: fx::spec_fdiv(a.z as int, d) as i128,
    }
}

/// Euclidean norm. Since each component holds the real value times `SCALE`,
/// the integer square root of the raw sum of squares is again a fixed-point
/// scalar.
pub open spec fn spec_vnorm(v: Vector3) -> int {
    fx::sat(fx::sqrt(v.x * v.x + v.y * v.y + v.z * v.z))
}

/// Unit vector in the direction of `v`; the `x` axis when `v` has norm zero.
pub open spec fn spec_vnormalize(v: Vector3) -> Vector3 {
    let l = spec_vnorm(v);
    if l == 0 {
        spec_unit_x()
    } else {
        Vector3 {
            x: fx::spec_fdiv(v.x as int, l) as i128,
            y: fx::spec_fdiv(v.y as int, l) as i128,
            z: fx::spec_fdiv(v.z as int, l) as i128,
        }
    }
}

/// A vector orthogonal to `v`: the cross product with the `x` axis, or with
/// the `y` axis when `v` is parallel to the `x` axis.
pub open spec fn spec_vorthogonal(v: Vector3) -> Vector3 {
    let c = spec_vcross(v, spec_unit_x());
    if c.x == 0 && c.y == 0 && c.z == 0 {
        spec_vcross(v, spec_unit_y())
    } else {
        c
    }
}

impl Vector3 {
    pub fn new(x: i128, y: i128, z: i128) -> (r: Vector3)
        requires
            -LIM <= x <= LIM,
            -LIM <= y <= LIM,
            -LIM <= z <= LIM,
        ensures
            r == (Vector3 { x, y, z }),
            vec_wf(r),
    {
        Vector3 { x, y, z }
    }

    /// The zero vector.
    pub fn zero() -> (r: Vector3)
        ensures
            r == spec_vzero(),
            vec_wf(r),
    {
        Vector3 { x: 0, y: 0, z: 0 }
    }

    /// Unit vector along the `x` axis.
    pub fn unit_x() -> (r: Vector3)
        ensures
            r == spec_unit_x(),
            vec_wf(r),
    {
        Vector3 { x: SCALE, y: 0, z: 0 }
    }

    /// Unit vector along the `y` axis.
    pub fn unit_y() -> (r: Vector3)
        ensures
            r == spec_unit_y(),
            vec_wf(r),
    {
        Vector3 { x: 0, y: SCALE, z: 0 }
    }

    /// Unit vector along the `z` axis.
    pub fn unit_z() -> (r: Vector3)
        ensures
            r == spec_unit_z(),
            vec_wf(r),
    {
        Vector3 { x: 0, y: 0, z: SCALE }
    }

    /// Componentwise saturating sum.
    pub fn add(&self, o: &Vector3) -> (r: Vector3)
        requires
            vec_wf(*self),
            vec_wf(*o),
        ensures
            r == spec_vadd(*self, *o),
            vec_wf(r),
    {
        Vector3 {
            x: fx::fadd(self.x, o.x),
            y: fx::fadd(self.y, o.y),
            z: fx::fadd(self.z, o.z),
        }
    }

    /// Componentwise saturating difference.
    pub fn sub(&self, o: &Vector3) -> (r: Vector3)
        requires
            vec_wf(*self),
            vec_wf(*o),
        ensures
            r == spec_vsub(*self, *o),
            vec_wf(r),
    {
        Vector3 {
            x: fx::fsub(self.x, o.x),
            y: fx::fsub(self.y, o.y),
            z: fx::fsub(self.z, o.z),
        }
    }

    /// Multiply every component by the scalar `l`.
    pub fn scale(&self, l: i128) -> (r: Vector3)
        requires
            vec_wf(*self),
            -LIM <= l <= LIM,
        ensures
            r == spec_vscale(*self, l as int),
            vec_wf(r),
    {
        Vector3 {
            x: fx::fmul(self.x, l),
            y: fx::fmul(self.y, l),
            z: fx::fmul(self.z, l),
        }
    }

    /// Divide every component by the positive scalar `d`.
    pub fn scale_div(&self, d: i128) -> (r: Vector3)
        requires
            vec_wf(*self),
            d >= 1,
        ensures
            r == spec_vdiv(*self, d as int),
            vec_wf(r),
    {
        Vector3 {
            x: fx::fdiv(self.x, d),
            y: fx::fdiv(self.y, d),
            z: fx::fdiv(self.z, d),
        }
    }

    /// Dot product.
    pub fn dot(&self, o: &Vector3) -> (r: i128)
        requires
            vec_wf(*self),
            vec_wf(*o),
        ensures
            r == spec_vdot(*self, *o),
            -LIM <= r <= LIM,
    {
        fx::fadd(fx::fadd(fx::fmul(self.x, o.x), fx::fmul(self.y, o.y)), fx::fmul(self.z, o.z))
    }

    /// Cross product.
    pub fn cross(&self, o: &Vector3) -> (r: Vector3)
        requires
            vec_wf(*self),
            vec_wf(*o),
        ensures
            r == spec_vcross(*self, *o),
            vec_wf(r),
    {
        Vector3 {
            x: fx::fsub(fx::fmul(self.y, o.z), fx::fmul(self.z, o.y)),
            y: fx::fsub(fx::fmul(self.z, o.x), fx::fmul(self.x, o.z)),
            z: fx::fsub(fx::fmul(self.x, o.y), fx::fmul(self.y, o.x)),
        }
    }

    /// Euclidean norm.
    pub fn norm(&self) -> (r: i128)
        requires
            vec_wf(*self),
        ensures
            r == spec_vnorm(*self),
            0 <= r <= LIM,
    {
        proof {
            fx::lemma_mul_abs_le(self.x as int, self.x as int, LIM as int, LIM as int);
            fx::lemma_mul_abs_le(self.y as int, self.y as int, LIM as int, LIM as int);
            fx::lemma_mul_abs_le(self.z as int, self.z as int, LIM as int, LIM as int);
            assert(self.x * self.x >= 0) by (nonlinear_arith);
            assert(self.y * self.y >= 0) by (nonlinear_arith);
            assert(self.z * self.z >= 0) by (nonlinear_arith);
        }
        let s: i128 = self.x * self.x + self.y * self.y + self.z * self.z;
        fx::sat_lim(fx::isqrt(s), LIM)
    }

    /// Unit vector in the direction of `self` (the `x` axis for the zero
    /// vector, whose direction is undefined).
    pub fn normalize(&self) -> (r: Vector3)
        requires
            vec_wf(*self),
        ensures
            r == spec_vnormalize(*self),
            vec_wf(r),
    {
        let l: i128 = self.norm();
        if l == 0 {
            Vector3::unit_x()
        } else {
            Vector3 { x: fx::fdiv(self.x, l), y: fx::fdiv(self.y, l), z: fx::fdiv(self.z, l) }
        }
    }

    /// A vector orthogonal to `self`.
    pub fn orthogonal(&self) -> (r: Vector3)
        requires
            vec_wf(*self),
        ensures
            r == spec_vorthogonal(*self),
            vec_wf(r),
    {
        let c = self.cross(&Vector3::unit_x());
        if c.x == 0 && c.y == 0 && c.z == 0 {
            self.cross(&Vector3::unit_y())
        } else {
            c
        }
    }
}

} // verus!
