//! Exact velocity evaluator: sums every vorton's kernel contribution.

use vstd::prelude::*;
use crate::point3::{Point3, point_wf};
use crate::vector3::{Vector3, vec_wf, spec_vadd};
use crate::vorton::{Vorton, spec_velocity_contribution, vorton_wf};
use crate::super_vorton::vortons_wf;

verus! {

/// The velocity at `p` induced by the vortons of `vs`, starting from the
/// ambient velocity `start`: contributions are accumulated in sequence
/// order.
pub open spec fn spec_velocity_sum(vs: Seq<Vorton>, start: Vector3, p: Point3) -> Vector3
    decreases vs.len(),
{
    if vs.len() == 0 {
        start
    } else {
        spec_vadd(
            spec_velocity_sum(vs.drop_last(), start, p),
            spec_velocity_contribution(vs.last(), p),
        )
    }
}

/// The velocity at `position`: the kernel contributions of `vortons`
/// summed on top of the ambient velocity `start`.
pub fn velocity_at(vortons: &Vec<Vorton>, start: &Vector3, position: &Point3) -> (r: Vector3)
    requires
        vortons_wf(vortons@),
        vec_wf(*start),
        point_wf(*position),
    ensures
        r == spec_velocity_sum(vortons@, *start, *position),
        vec_wf(r),
{
    let mut acc: Vector3 = *start;
    let mut i: usize = 0;
    while i < vortons.len()
        invariant
            0 <= i <= vortons.len(),
            vortons_wf(vortons@),
            point_wf(*position),
            acc == spec_velocity_sum(vortons@.subrange(0, i as int), *start, *position),
            vec_wf(acc),
        decreases vortons.len() - i,
    {
        proof {
            assert(vortons@.subrange(0, i + 1).drop_last() =~= vortons@.subrange(0, i as int));
            assert(vortons@.subrange(0, i + 1).last() == vortons@[i as int]);
        }
        acc = acc.add(&vortons[i].velocity_contribution(position));
        i = i + 1;
    }
    proof {
        assert(vortons@.subrange(0, vortons@.len() as int) =~= vortons@);
    }
    acc
}

/// A copy of a vorton list.
pub fn copy_vortons(vs: &Vec<Vorton>) -> (r: Vec<Vorton>)
    ensures
        r@ == vs@,
{
    let mut out: Vec<Vorton> = Vec::new();
    let mut i: usize = 0;
    while i < vs.len()
        invariant
            0 <= i <= vs.len(),
            out@ == vs@.subrange(0, i as int),
        decreases vs.len() - i,
    {
        out.push(vs[i]);
        proof {
            assert(out@ =~= vs@.subrange(0, i + 1));
        }
        i = i + 1;
    }
    proof {
        assert(vs@.subrange(0, vs@.len() as int) =~= vs@);
    }
    out
}

/// Exact evaluator over a frozen vorton snapshot: the velocity at a point is
/// the ambient velocity plus every vorton's kernel contribution, in snapshot
/// order.
pub struct VortonToVelocitySimple {
    pub vortons: Vec<Vorton>,
    pub velocity: Vector3,
}

/// Validity of the evaluator: a valid snapshot and ambient velocity.
pub open spec fn simple_wf(e: VortonToVelocitySimple) -> bool {
    &&& vortons_wf(e.vortons@)
    &&& vec_wf(e.velocity)
}

impl VortonToVelocitySimple {
    /// An evaluator over a copy of `vortons` with ambient velocity
    /// `velocity`.
    pub fn new(vortons: &Vec<Vorton>, velocity: Vector3) -> (r: VortonToVelocitySimple)
        requires
            vortons_wf(vortons@),
            vec_wf(velocity),
        ensures
            r.vortons@ == vortons@,
            r.velocity == velocity,
            simple_wf(r),
    {
        VortonToVelocitySimple { vortons: copy_vortons(vortons), velocity }
    }

    /// The velocity at `position`: the ambient velocity plus the sum of all
    /// kernel contributions. A pure function of the snapshot and the query
    /// point; it never fails.
    pub fn velocity_at(&self, position: &Point3) -> (r: Vector3)
        requires
            simple_wf(*self),
            point_wf(*position),
        ensures
            r == spec_velocity_sum(self.vortons@, self.velocity, *position),
            vec_wf(r),
    {
        velocity_at(&self.vortons, &self.velocity, position)
    }
}

/// Evaluating the same snapshot at the same point twice gives the same
/// velocity: the result is a function of the vorton sequence, the ambient
/// velocity and the query point alone, with no hidden state.
pub proof fn lemma_velocity_sum_deterministic(
    a: VortonToVelocitySimple,
    b: VortonToVelocitySimple,
    p: Point3,
)
    requires
        a.vortons@ == b.vortons@,
        a.velocity == b.velocity,
    ensures
        spec_velocity_sum(a.vortons@, a.velocity, p) == spec_velocity_sum(b.vortons@, b.velocity, p),
{
}

} // verus!
