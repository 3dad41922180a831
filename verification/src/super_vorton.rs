//! Aggregation of vortons into a single representative pseudo-particle.
//!
//! A `SuperVorton` stands in for a cluster of vortons during approximate
//! velocity evaluation: its volume is the sum of the member volumes, its
//! position the centroid of the member positions weighted by mean vorticity
//! magnitude times volume, its vorticity the volume-weighted mean of the
//! member vorticities, and it tracks the largest member vorticity magnitude.

use vstd::prelude::*;
use crate::fx;
use crate::fx::LIM;
use crate::point3::Point3;
use crate::vector3::{Vector3, spec_vadd, spec_vdiv, spec_vnorm, spec_vscale};
use crate::vorton::{Vorton, vorton_wf};

verus! {

/// An aggregate of `n_vortons` vortons. The embedded vorton carries the
/// aggregate position, vorticity and volume; `cum_vorticity` is the running
/// volume-weighted mean vorticity magnitude, used to weight positions when
/// aggregates are combined.
#[derive(Clone, Copy, Debug, PartialEq, Eq, Structural)]
pub struct SuperVorton {
    pub vorton: Vorton,
    pub max_vorticity: i128,
    pub cum_vorticity: i128,
    pub n_vortons: usize,
}

/// Validity of an aggregate: a valid embedded vorton and nonnegative
/// vorticity statistics.
pub open spec fn sv_wf(s: SuperVorton) -> bool {
    &&& vorton_wf(s.vorton)
    &&& 0 <= s.max_vorticity <= LIM
    &&& 0 <= s.cum_vorticity <= LIM
}

/// The empty aggregate: no member, smallest representable volume, at the
/// origin. It is the seed when an aggregate is folded over a vorton list.
pub open spec fn spec_sv_default() -> SuperVorton {
    SuperVorton {
        vorton: Vorton {
            volume: 1,
            position: Point3 { x: 0, y: 0, z: 0 },
            vorticity: Vector3 { x: 0, y: 0, z: 0 },
        },
        max_vorticity: 0,
        cum_vorticity: 0,
        n_vortons: 0,
    }
}

/// The degenerate aggregate of a single vorton.
pub open spec fn spec_sv_from_vorton(v: Vorton) -> SuperVorton {
    SuperVorton {
        vorton: v,
        max_vorticity: spec_vnorm(v.vorticity) as i128,
        cum_vorticity: spec_vnorm(v.vorticity) as i128,
        n_vortons: 1,
    }
}

/// The centroid of two positions under nonnegative weights `w1` and `w2`.
/// When both weights are zero the centroid is undefined; the first position
/// stands for it.
pub open spec fn spec_weighted_position(p1: Point3, w1: int, p2: Point3, w2: int) -> Point3 {
    let ws = fx::spec_fadd(w1, w2);
    if ws == 0 {
        p1
    } else {
        Point3 {
            x: fx::sat_pos(fx::spec_fdiv(fx::spec_fadd(fx::spec_fmul(p1.x as int, w1),
                fx::spec_fmul(p2.x as int, w2)), ws)) as i128,
            y: fx::sat_pos(fx::spec_fdiv(fx::spec_fadd(fx::spec_fmul(p1.y as int, w1),
                fx::spec_fmul(p2.y as int, w2)), ws)) as i128,
            z: fx::sat_pos(fx::spec_fdiv(fx::spec_fadd(fx::spec_fmul(p1.z as int, w1),
                fx::spec_fmul(p2.z as int, w2)), ws)) as i128,
        }
    }
}

/// The aggregate grown by one more vorton.
pub open spec fn spec_sv_add_vorton(s: SuperVorton, o: Vorton) -> SuperVorton {
    let on = spec_vnorm(o.vorticity);
    let volume = fx::spec_fadd(s.vorton.volume as int, o.volume as int);
    let w1 = fx::spec_fmul(s.cum_vorticity as int, s.vorton.volume as int);
    let w2 = fx::spec_fmul(on, o.volume as int);
    SuperVorton {
        vorton: Vorton {
            volume: volume as i128,
            position: spec_weighted_position(s.vorton.position, w1, o.position, w2),
            vorticity: spec_vdiv(
                spec_vadd(
                    spec_vscale(s.vorton.vorticity, s.vorton.volume as int),
                    spec_vscale(o.vorticity, o.volume as int),
                ),
                volume,
            ),
        },
        max_vorticity: fx::spec_fmax(s.max_vorticity as int, on) as i128,
        cum_vorticity: fx::spec_fdiv(fx::spec_fadd(w1, w2), volume) as i128,
        n_vortons: fx::sat_usize(s.n_vortons + 1) as usize,
    }
}

/// The combination of two aggregates.
pub open spec fn spec_sv_merge(s: SuperVorton, o: SuperVorton) -> SuperVorton {
    let volume = fx::spec_fadd(s.vorton.volume as int, o.vorton.volume as int);
    let w1 = fx::spec_fmul(s.cum_vorticity as int, s.vorton.volume as int);
    let w2 = fx::spec_fmul(o.cum_vorticity as int, o.vorton.volume as int);
    SuperVorton {
        vorton: Vorton {
            volume: volume as i128,
            position: spec_weighted_position(s.vorton.position, w1, o.vorton.position, w2),
            vorticity: spec_vdiv(
                spec_vadd(
                    spec_vscale(s.vorton.vorticity, s.vorton.volume as int),
                    spec_vscale(o.vorton.vorticity, o.vorton.volume as int),
                ),
                volume,
            ),
        },
        max_vorticity: fx::spec_fmax(s.max_vorticity as int, o.max_vorticity as int) as i128,
        cum_vorticity: fx::spec_fdiv(fx::spec_fadd(w1, w2), volume) as i128,
        n_vortons: fx::sat_usize(s.n_vortons + o.n_vortons) as usize,
    }
}

/// The aggregate of a whole vorton sequence, grown one vorton at a time in
/// sequence order from the empty aggregate.
pub open spec fn spec_sv_fold(vs: Seq<Vorton>) -> SuperVorton
    decreases vs.len(),
{
    if vs.len() == 0 {
        spec_sv_default()
    } else {
        spec_sv_add_vorton(spec_sv_fold(vs.drop_last()), vs.last())
    }
}

/// Every vorton of the sequence is valid.
pub open spec fn vortons_wf(s: Seq<Vorton>) -> bool {
    forall|i: int| 0 <= i < s.len() ==> vorton_wf(#[trigger] s[i])
}

/// Merging aggregates is associative in the aggregate volume, the member
/// count and the maximum vorticity magnitude: merging `(a, b)` and then `c`
/// agrees with merging `a` and then `(b, c)` on those three fields. The
/// aggregate position and vorticity are weighted means computed with a
/// rounded division, so on those fields the two orders agree only up to
/// rounding, and they are not covered here.
pub proof fn lemma_merge_assoc_stats(a: SuperVorton, b: SuperVorton, c: SuperVorton)
    requires
        sv_wf(a),
        sv_wf(b),
        sv_wf(c),
    ensures
        spec_sv_merge(spec_sv_merge(a, b), c).vorton.volume == spec_sv_merge(
            a,
            spec_sv_merge(b, c),
        ).vorton.volume,
        spec_sv_merge(spec_sv_merge(a, b), c).max_vorticity == spec_sv_merge(
            a,
            spec_sv_merge(b, c),
        ).max_vorticity,
        spec_sv_merge(spec_sv_merge(a, b), c).n_vortons == spec_sv_merge(
            a,
            spec_sv_merge(b, c),
        ).n_vortons,
{
}

/// Values that can be combined pairwise into an aggregate of the same kind.
pub trait Aggregatable: Sized {
    /// Validity bound that `aggregate` preserves.
    spec fn agg_wf(&self) -> bool;

    /// Combine two values into their aggregate.
    fn aggregate(&self, rhs: &Self) -> (r: Self)
        requires
            self.agg_wf(),
            rhs.agg_wf(),
        ensures
            r.agg_wf(),
    ;
}

impl SuperVorton {
    /// The aggregate's representative vorton.
    pub fn vorton(&self) -> (r: &Vorton)
        ensures
            r == self.vorton,
    {
        &self.vorton
    }

    /// The largest vorticity magnitude among the members.
    pub fn max_vorticity(&self) -> (r: i128)
        ensures
            r == self.max_vorticity,
    {
        self.max_vorticity
    }

    /// How many vortons the aggregate stands for.
    pub fn n_vortons(&self) -> (r: usize)
        ensures
            r == self.n_vortons,
    {
        self.n_vortons
    }

    /// The degenerate aggregate of a single vorton.
    pub fn from_vorton(v: &Vorton) -> (r: SuperVorton)
        requires
            vorton_wf(*v),
        ensures
            r == spec_sv_from_vorton(*v),
            sv_wf(r),
    {
        let n: i128 = v.vorticity.norm();
        SuperVorton { vorton: *v, max_vorticity: n, cum_vorticity: n, n_vortons: 1 }
    }

    /// Grow the aggregate by one more vorton.
    pub fn add_vorton(&self, other: &Vorton) -> (r: SuperVorton)
        requires
            sv_wf(*self),
            vorton_wf(*other),
        ensures
            r == spec_sv_add_vorton(*self, *other),
            sv_wf(r),
    {
        let on: i128 = other.vorticity.norm();
        self.combine(other.volume, &other.position, &other.vorticity, on, on)
    }

    /// Combine two aggregates.
    pub fn merge(&self, other: &SuperVorton) -> (r: SuperVorton)
        requires
            sv_wf(*self),
            sv_wf(*other),
        ensures
            r == spec_sv_merge(*self, *other),
            sv_wf(r),
    {
        let r = self.combine(
            other.vorton.volume,
            &other.vorton.position,
            &other.vorton.vorticity,
            other.cum_vorticity,
            other.max_vorticity,
        );
        SuperVorton { n_vortons: fx::usize_sat_add(self.n_vortons, other.n_vortons), ..r }
    }

    /// Shared combination step: fold a volume of fluid at `position` with
    /// vorticity `vorticity`, mean vorticity magnitude `cum` and maximum
    /// vorticity magnitude `max` into this aggregate. The member count grows
    /// by one.
    fn combine(
        &self,
        volume: i128,
        position: &Point3,
        vorticity: &Vector3,
        cum: i128,
        max: i128,
    ) -> (r: SuperVorton)
        requires
            sv_wf(*self),
            crate::point3::point_wf(*position),
            crate::vector3::vec_wf(*vorticity),
            1 <= volume <= LIM,
            0 <= cum <= LIM,
            0 <= max <= LIM,
        ensures
            r == (SuperVorton {
                vorton: Vorton {
                    volume: fx::spec_fadd(self.vorton.volume as int, volume as int) as i128,
                    position: spec_weighted_position(
                        self.vorton.position,
                        fx::spec_fmul(self.cum_vorticity as int, self.vorton.volume as int),
                        *position,
                        fx::spec_fmul(cum as int, volume as int),
                    ),
                    vorticity: spec_vdiv(
                        spec_vadd(
                            spec_vscale(self.vorton.vorticity, self.vorton.volume as int),
                            spec_vscale(*vorticity, volume as int),
                        ),
                        fx::spec_fadd(self.vorton.volume as int, volume as int),
                    ),
                },
                max_vorticity: fx::spec_fmax(self.max_vorticity as int, max as int) as i128,
                cum_vorticity: fx::spec_fdiv(
                    fx::spec_fadd(
                        fx::spec_fmul(self.cum_vorticity as int, self.vorton.volume as int),
                        fx::spec_fmul(cum as int, volume as int),
                    ),
                    fx::spec_fadd(self.vorton.volume as int, volume as int),
                ) as i128,
                n_vortons: fx::sat_usize(self.n_vortons + 1) as usize,
            }),
            sv_wf(r),
    {
        proof {
            fx::lemma_fmul_nonneg(self.cum_vorticity as int, self.vorton.volume as int);
            fx::lemma_fmul_nonneg(cum as int, volume as int);
        }
        let new_volume: i128 = fx::fadd(self.vorton.volume, volume);
        let w1: i128 = fx::fmul(self.cum_vorticity, self.vorton.volume);
        let w2: i128 = fx::fmul(cum, volume);
        let wsum: i128 = fx::fadd(w1, w2);
        proof {
            fx::lemma_fdiv_nonneg(w1 + w2, new_volume as int);
        }
        let new_position: Point3 = if wsum == 0 {
            self.vorton.position
        } else {
            Point3 {
                x: fx::sat_lim(fx::fdiv(fx::fadd(fx::fmul(self.vorton.position.x, w1),
                    fx::fmul(position.x, w2)), wsum), crate::fx::POS_LIM),
                y: fx::sat_lim(fx::fdiv(fx::fadd(fx::fmul(self.vorton.position.y, w1),
                    fx::fmul(position.y, w2)), wsum), crate::fx::POS_LIM),
                z: fx::sat_lim(fx::fdiv(fx::fadd(fx::fmul(self.vorton.position.z, w1),
                    fx::fmul(position.z, w2)), wsum), crate::fx::POS_LIM),
            }
        };
        let new_vorticity: Vector3 = self
            .vorton
            .vorticity
            .scale(self.vorton.volume)
            .add(&vorticity.scale(volume))
            .scale_div(new_volume);
        SuperVorton {
            vorton: Vorton { volume: new_volume, position: new_position, vorticity: new_vorticity },
            max_vorticity: fx::fmax(self.max_vorticity, max),
            cum_vorticity: fx::fdiv(wsum, new_volume),
            n_vortons: fx::usize_sat_add(self.n_vortons, 1),
        }
    }

    /// The aggregate of a whole vorton list, grown one vorton at a time in
    /// list order.
    pub fn from_vortons(vs: &Vec<Vorton>) -> (r: SuperVorton)
        requires
            vortons_wf(vs@),
        ensures
            r == spec_sv_fold(vs@),
            sv_wf(r),
    {
        let mut acc = SuperVorton::default();
        let mut i: usize = 0;
        while i < vs.len()
            invariant
                0 <= i <= vs.len(),
                vortons_wf(vs@),
                acc == spec_sv_fold(vs@.subrange(0, i as int)),
                sv_wf(acc),
            decreases vs.len() - i,
        {
            proof {
                assert(vs@.subrange(0, i + 1).drop_last() =~= vs@.subrange(0, i as int));
                assert(vs@.subrange(0, i + 1).last() == vs@[i as int]);
            }
            acc = acc.add_vorton(&vs[i]);
            i = i + 1;
        }
        proof {
            assert(vs@.subrange(0, vs@.len() as int) =~= vs@);
        }
        acc
    }
}

impl Default for SuperVorton {
    /// The empty aggregate.
    fn default() -> (r: SuperVorton)
        ensures
            r == spec_sv_default(),
            sv_wf(r),
    {
        SuperVorton {
            vorton: Vorton {
                volume: 1,
                position: Point3 { x: 0, y: 0, z: 0 },
                vorticity: Vector3 { x: 0, y: 0, z: 0 },
            },
            max_vorticity: 0,
            cum_vorticity: 0,
            n_vortons: 0,
        }
    }
}

impl Aggregatable for SuperVorton {
    open spec fn agg_wf(&self) -> bool {
        sv_wf(*self)
    }

    fn aggregate(&self, rhs: &Self) -> (r: Self) {
        self.merge(rhs)
    }
}

} // verus!
