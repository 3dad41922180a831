//! The vortex particle (vorton): a Lagrangian particle carrying a vorticity
//! vector and an effective volume, together with its induced-velocity kernel.

use vstd::prelude::*;
use crate::error::VortexError;
use crate::fx;
use crate::fx::{LIM, SCALE};
use crate::point3::{Point3, point_wf, spec_psub, spec_padd};
use crate::vector3::{Vector3, vec_wf, spec_vcross, spec_vnorm, spec_vnormalize, spec_vscale,
    spec_vadd};

verus! {

/// `4/3 * PI` as a fixed-point scalar.
pub const FOUR_THIRDS_PI: i128 = 4_188_790_205;

/// A vorton: an effective volume of fluid at `position` rotating with the
/// vorticity vector `vorticity`. The volume is strictly positive (it divides
/// the kernel regularization).
#[derive(Clone, Copy, Debug, PartialEq, Eq, Structural)]
pub struct Vorton {
    pub volume: i128,
    pub position: Point3,
    pub vorticity: Vector3,
}

/// Validity of a vorton: in-range coordinates and vorticity, positive volume.
pub open spec fn vorton_wf(v: Vorton) -> bool {
    &&& point_wf(v.position)
    &&& vec_wf(v.vorticity)
    &&& 1 <= v.volume <= LIM
}

/// The regularization ratio of the kernel: the volume of the ball of radius
/// `|r|` (that is `4/3 * PI * |r|^3`) over the vorton volume. A query point
/// with ratio at most 8 lies inside the vorton's effective core.
pub open spec fn spec_ratio(r: Vector3, volume: int) -> int {
    let n = spec_vnorm(r);
    fx::spec_fdiv(
        fx::spec_fmul(FOUR_THIRDS_PI as int, fx::spec_fmul(fx::spec_fmul(n, n), n)),
        volume,
    )
}

/// The velocity the vorton induces at point `p`: the regularized Biot-Savart
/// kernel `vorticity x r / (3 * max(ratio, 8))`, which flattens to a constant
/// inside the core instead of following the inverse-cube law.
pub open spec fn spec_velocity_contribution(v: Vorton, p: Point3) -> Vector3 {
    let r = spec_psub(p, v.position);
    let c = spec_vcross(v.vorticity, r);
    let d = 3 * fx::spec_fmax(spec_ratio(r, v.volume as int), 8 * SCALE);
    Vector3 {
        x: fx::spec_fdiv(c.x as int, d) as i128,
        y: fx::spec_fdiv(c.y as int, d) as i128,
        z: fx::spec_fdiv(c.z as int, d) as i128,
    }
}

/// The vorton `advect` returns: moved along `velocity` for `time_step`,
/// vorticity and volume unchanged.
pub open spec fn spec_advect(v: Vorton, velocity: Vector3, time_step: int) -> Vorton {
    Vorton {
        volume: v.volume,
        position: spec_padd(v.position, spec_vscale(velocity, time_step)),
        vorticity: v.vorticity,
    }
}

/// The vorton `step` returns: vorticity updated by `source * time_step`,
/// position and volume unchanged.
pub open spec fn spec_step(v: Vorton, source: Vector3, time_step: int) -> Vorton {
    Vorton {
        volume: v.volume,
        position: v.position,
        vorticity: spec_vadd(v.vorticity, spec_vscale(source, time_step)),
    }
}

/// The vorton `make_velocity_at` returns on success.
pub open spec fn spec_make_velocity_at(
    position: Point3,
    volume: int,
    target_point: Point3,
    target_velocity: Vector3,
) -> Vorton {
    let r = spec_psub(target_point, position);
    let d = spec_vnorm(r);
    let vv = spec_vcross(r, target_velocity);
    let m = fx::spec_fmul(
        fx::spec_fdiv(3 * fx::spec_fmax(spec_ratio(r, volume), 8 * SCALE), d),
        spec_vnorm(target_velocity),
    );
    Vorton {
        volume: volume as i128,
        position,
        vorticity: spec_vscale(spec_vnormalize(vv), m),
    }
}

impl Vorton {
    /// A new vorton at `position` with vorticity `vorticity` and volume
    /// `volume`.
    pub fn new(position: Point3, vorticity: Vector3, volume: i128) -> (r: Vorton)
        requires
            point_wf(position),
            vec_wf(vorticity),
            1 <= volume <= LIM,
        ensures
            r == (Vorton { volume, position, vorticity }),
            vorton_wf(r),
    {
        Vorton { volume, position, vorticity }
    }

    /// Solves for the vorticity vector that makes a single vorton at
    /// `position` with volume `volume` induce (approximately) the target
    /// velocity at the target point. Fails when the target point is too
    /// close to the position, or when the two points and the target velocity
    /// are degenerately placed (near-zero cross product).
    pub fn make_velocity_at(
        position: Point3,
        volume: i128,
        target: (&Point3, &Vector3),
    ) -> (r: Result<Vorton, VortexError>)
        requires
            point_wf(position),
            point_wf(*target.0),
            vec_wf(*target.1),
            1 <= volume <= LIM,
        ensures
            ({
                let rv = spec_psub(*target.0, position);
                let d = spec_vnorm(rv);
                let cn = spec_vnorm(spec_vcross(rv, *target.1));
                if d < 1000 {
                    r == Err::<Vorton, VortexError>(VortexError::DegenerateGeometry)
                } else if cn < 1000 {
                    r == Err::<Vorton, VortexError>(VortexError::DegenerateGeometry)
                } else {
                    r == Ok::<Vorton, VortexError>(
                        spec_make_velocity_at(position, volume as int, *target.0, *target.1),
                    ) && vorton_wf(spec_make_velocity_at(position, volume as int, *target.0,
                        *target.1))
                }
            }),
    {
        let rv = target.0.sub(&position);
        let d = rv.norm();
        if d < 1000 {
            return Err(VortexError::DegenerateGeometry);
        }
        let vv = rv.cross(target.1);
        if vv.norm() < 1000 {
            return Err(VortexError::DegenerateGeometry);
        }
        let ratio_term: i128 = 3 * fx::fmax(Self::ratio(&rv, volume), 8 * SCALE);
        let magnitude: i128 = fx::fmul(fx::fdiv(ratio_term, d), target.1.norm());
        Ok(Vorton { volume, position, vorticity: vv.normalize().scale(magnitude) })
    }

    /// Whether `position` lies inside the vorton's effective core (the
    /// region where the kernel is regularized to a constant).
    pub fn is_inside(&self, position: &Point3) -> (r: bool)
        requires
            vorton_wf(*self),
            point_wf(*position),
        ensures
            r == (spec_ratio(spec_psub(*position, self.position), self.volume as int) <= 8
                * SCALE),
    {
        Self::ratio(&position.sub(&self.position), self.volume) <= 8 * SCALE
    }

    /// The regularization ratio of the kernel for separation `r` and volume
    /// `volume`.
    fn ratio(r: &Vector3, volume: i128) -> (q: i128)
        requires
            vec_wf(*r),
            1 <= volume <= LIM,
        ensures
            q == spec_ratio(*r, volume as int),
            0 <= q <= LIM,
    {
        let n: i128 = r.norm();
        fx::fdiv(fx::fmul(FOUR_THIRDS_PI, fx::fmul(fx::fmul(n, n), n)), volume)
    }

    /// The velocity this vorton induces at `position`.
    pub fn velocity_contribution(&self, position: &Point3) -> (r: Vector3)
        requires
            vorton_wf(*self),
            point_wf(*position),
        ensures
            r == spec_velocity_contribution(*self, *position),
            vec_wf(r),
    {
        let rv = position.sub(&self.position);
        let c = self.vorticity.cross(&rv);
        let d: i128 = 3 * fx::fmax(Self::ratio(&rv, self.volume), 8 * SCALE);
        Vector3 { x: fx::fdiv(c.x, d), y: fx::fdiv(c.y, d), z: fx::fdiv(c.z, d) }
    }

    /// A new vorton moved along `velocity` for `time_step`; vorticity and
    /// volume unchanged.
    pub fn advect(&self, velocity: &Vector3, time_step: i128) -> (r: Vorton)
        requires
            vorton_wf(*self),
            vec_wf(*velocity),
            -LIM <= time_step <= LIM,
        ensures
            r == spec_advect(*self, *velocity, time_step as int),
            vorton_wf(r),
    {
        Vorton {
            volume: self.volume,
            position: self.position.add_vector(&velocity.scale(time_step)),
            vorticity: self.vorticity,
        }
    }

    /// A new vorton whose vorticity gained `source * time_step`; position
    /// and volume unchanged.
    pub fn step(&self, source: &Vector3, time_step: i128) -> (r: Vorton)
        requires
            vorton_wf(*self),
            vec_wf(*source),
            -LIM <= time_step <= LIM,
        ensures
            r == spec_step(*self, *source, time_step as int),
            vorton_wf(r),
    {
        Vorton {
            volume: self.volume,
            position: self.position,
            vorticity: self.vorticity.add(&source.scale(time_step)),
        }
    }

    /// The vorton's effective volume.
    pub fn volume(&self) -> (r: i128)
        ensures
            r == self.volume,
    {
        self.volume
    }

    /// The vorton's vorticity vector.
    pub fn vorticity(&self) -> (r: &Vector3)
        ensures
            r == self.vorticity,
    {
        &self.vorticity
    }

    /// The vorton's position.
    pub fn position(&self) -> (r: &Point3)
        ensures
            r == self.position,
    {
        &self.position
    }
}

/// At a query point equal to the vorton's own position the kernel is
/// well-defined: the separation has ratio zero, so the point lies inside the
/// regularized core and the induced velocity is exactly zero — the
/// regularization leaves no singularity.
pub proof fn lemma_contribution_at_own_position(v: Vorton)
    requires
        vorton_wf(v),
    ensures
        spec_ratio(spec_psub(v.position, v.position), v.volume as int) == 0,
        spec_ratio(spec_psub(v.position, v.position), v.volume as int) <= 8 * SCALE,
        spec_velocity_contribution(v, v.position) == crate::vector3::spec_vzero(),
{
    let r = spec_psub(v.position, v.position);
    assert(r == (Vector3 { x: 0i128, y: 0i128, z: 0i128 }));
    fx::lemma_sqrt_unique(0, 0);
    assert(spec_vnorm(r) == 0);
    let d = 3 * fx::spec_fmax(spec_ratio(r, v.volume as int), 8 * SCALE);
    fx::lemma_tdiv_bounds(0, v.volume as int);
    fx::lemma_tdiv_bounds(0, SCALE as int);
    fx::lemma_tdiv_bounds(0, d);
    let c = spec_vcross(v.vorticity, r);
    assert(c == (Vector3 { x: 0i128, y: 0i128, z: 0i128 }));
}

impl Default for Vorton {
    /// A vorton of the smallest representable volume at the origin with no
    /// vorticity.
    fn default() -> (r: Vorton)
        ensures
            r == (Vorton {
                volume: 1,
                position: Point3 { x: 0, y: 0, z: 0 },
                vorticity: Vector3 { x: 0, y: 0, z: 0 },
            }),
            vorton_wf(r),
    {
        Vorton {
            volume: 1,
            position: Point3 { x: 0, y: 0, z: 0 },
            vorticity: Vector3 { x: 0, y: 0, z: 0 },
        }
    }
}

} // verus!
