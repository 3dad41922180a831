//! The simulation root object and its per-iteration pipeline: vorticity
//! diffusion, then advection by a selected velocity evaluator, with culling
//! of fully diffused particles.

use vstd::prelude::*;
use crate::error::VortexError;
use crate::fx;
use crate::fx::LIM;
use crate::point3::{Point3, point_wf};
use crate::vector3::{Vector3, vec_wf, spec_vadd, spec_vzero, spec_vnorm, spec_vscale};
use crate::vorton::{Vorton, vorton_wf, spec_advect, spec_step};
use crate::super_vorton::vortons_wf;
use crate::vorton_to_velocity_simple::{VortonToVelocitySimple, simple_wf, velocity_at,
    spec_velocity_sum};
use crate::vorton_to_velocity_tree::{VortonToVelocityTree, tree_wf, pyramid_view,
    spec_grid_chain, spec_pyramid, spec_tree_velocity, TREE_MAX_LEVELS};

verus! {

/// Linear decay rate of the diffusion stand-in: the vorticity source is
/// `vorticity * (-DIFFUSION_RATE * viscosity)` (the real factor 0.1).
pub const DIFFUSION_RATE: i128 = 100_000_000;

/// Vorticity magnitude under which a particle counts as fully diffused and
/// is culled during advection (the real value 1e-5).
pub const CULL_THRESHOLD: i128 = 10_000;

/// Which velocity evaluator `advect_vortons` builds: the exact sum, or the
/// hierarchical approximation with the given level count.
#[derive(Clone, Copy, Debug, PartialEq, Eq, Structural)]
pub enum VortonToVelocityAlgorithm {
    Simple,
    Tree(usize),
}

/// The evaluator a fresh simulation starts with.
pub fn default_vorton_to_velocity() -> (r: VortonToVelocityAlgorithm)
    ensures
        r == VortonToVelocityAlgorithm::Simple,
{
    VortonToVelocityAlgorithm::Simple
}

/// Vortex simulation root object: the particle set and the state that
/// advances with each step.
pub struct Simulation {
    pub time: i128,
    pub iteration: usize,
    pub viscosity: i128,
    pub free_stream_velocity: Vector3,
    pub vortons: Vec<Vorton>,
    pub vorton_to_velocity_algorithm: VortonToVelocityAlgorithm,
}

/// Validity of a simulation: in-range time and viscosity, a valid ambient
/// velocity and particle set.
pub open spec fn sim_wf(s: Simulation) -> bool {
    &&& -LIM <= s.time <= LIM
    &&& 0 <= s.viscosity <= LIM
    &&& vec_wf(s.free_stream_velocity)
    &&& vortons_wf(s.vortons@)
}

/// The diffusion source of one vorton: a linear relaxation of its vorticity
/// toward zero, proportional to the viscosity.
pub open spec fn spec_diffusion_source(v: Vorton, viscosity: int) -> Vector3 {
    spec_vscale(v.vorticity, -fx::spec_fmul(DIFFUSION_RATE as int, viscosity))
}

/// The particle set after the diffusion sub-step: every vorton's vorticity
/// relaxed for `dt`, positions and volumes unchanged.
pub open spec fn spec_step_vorticity(vs: Seq<Vorton>, viscosity: int, dt: int) -> Seq<Vorton> {
    vs.map_values(|v: Vorton| spec_step(v, spec_diffusion_source(v, viscosity), dt))
}

/// The velocity the selected evaluator induces at `p` over the frozen
/// snapshot `vs` (without the ambient term).
pub open spec fn spec_eval_contribution(
    vs: Seq<Vorton>,
    alg: VortonToVelocityAlgorithm,
    p: Point3,
) -> Vector3 {
    match alg {
        VortonToVelocityAlgorithm::Simple => spec_velocity_sum(vs, spec_vzero(), p),
        VortonToVelocityAlgorithm::Tree(n) => spec_tree_velocity(vs, n as int, p),
    }
}

/// The particle set after the advection sub-step, processing `prefix` in
/// order: every vorton whose vorticity magnitude exceeds the culling
/// threshold moves along the ambient velocity plus the evaluator's velocity
/// at its position, all against the same frozen snapshot; the rest are
/// dropped.
pub open spec fn spec_advect_filtered(
    snapshot: Seq<Vorton>,
    prefix: Seq<Vorton>,
    free: Vector3,
    alg: VortonToVelocityAlgorithm,
    dt: int,
) -> Seq<Vorton>
    decreases prefix.len(),
{
    if prefix.len() == 0 {
        Seq::empty()
    } else {
        let rest = spec_advect_filtered(snapshot, prefix.drop_last(), free, alg, dt);
        let v = prefix.last();
        if spec_vnorm(v.vorticity) > CULL_THRESHOLD {
            rest.push(
                spec_advect(v, spec_vadd(free, spec_eval_contribution(snapshot, alg, v.position)),
                    dt),
            )
        } else {
            rest
        }
    }
}

/// Diffusion touches vorticity alone: the sub-step keeps every particle,
/// each at its position and volume; only the vorticity vector changes.
pub proof fn lemma_diffusion_preserves_geometry(vs: Seq<Vorton>, viscosity: int, dt: int)
    ensures
        spec_step_vorticity(vs, viscosity, dt).len() == vs.len(),
        forall|i: int|
            0 <= i < vs.len() ==> #[trigger] spec_step_vorticity(vs, viscosity, dt)[i].position
                == vs[i].position,
        forall|i: int|
            0 <= i < vs.len() ==> #[trigger] spec_step_vorticity(vs, viscosity, dt)[i].volume
                == vs[i].volume,
{
}

/// Advection never adds particles: what comes out of the advection sub-step
/// is never longer than what went in (only culling removes, nothing
/// creates).
pub proof fn lemma_advect_never_adds(
    snapshot: Seq<Vorton>,
    prefix: Seq<Vorton>,
    free: Vector3,
    alg: VortonToVelocityAlgorithm,
    dt: int,
)
    ensures
        spec_advect_filtered(snapshot, prefix, free, alg, dt).len() <= prefix.len(),
    decreases prefix.len(),
{
    if prefix.len() > 0 {
        lemma_advect_never_adds(snapshot, prefix.drop_last(), free, alg, dt);
    }
}

/// A built evaluator over a frozen snapshot.
enum Evaluator {
    Simple(VortonToVelocitySimple),
    Tree(VortonToVelocityTree),
}

/// The built evaluator matches the selected algorithm over the snapshot.
spec fn eval_ok(e: Evaluator, snapshot: Seq<Vorton>, alg: VortonToVelocityAlgorithm) -> bool {
    match e {
        Evaluator::Simple(s) => {
            &&& alg is Simple
            &&& simple_wf(s)
            &&& s.vortons@ == snapshot
            &&& s.velocity == spec_vzero()
        },
        Evaluator::Tree(t) => {
            &&& alg matches VortonToVelocityAlgorithm::Tree(n) && t.n_grids == n
            &&& tree_wf(t)
            &&& t.grids@ == spec_grid_chain(snapshot, t.n_grids as int)
            &&& pyramid_view(t.infos@) == spec_pyramid(snapshot, t.n_grids as int)
        },
    }
}

impl Simulation {
    /// A fresh simulation at time zero over the given particle set.
    pub fn new(
        viscosity: i128,
        free_stream_velocity: Vector3,
        vortons: Vec<Vorton>,
        algorithm: VortonToVelocityAlgorithm,
    ) -> (r: Simulation)
        requires
            0 <= viscosity <= LIM,
            vec_wf(free_stream_velocity),
            vortons_wf(vortons@),
        ensures
            r.time == 0,
            r.iteration == 0,
            r.viscosity == viscosity,
            r.free_stream_velocity == free_stream_velocity,
            r.vortons == vortons,
            r.vorton_to_velocity_algorithm == algorithm,
            sim_wf(r),
    {
        Simulation {
            time: 0,
            iteration: 0,
            viscosity,
            free_stream_velocity,
            vortons,
            vorton_to_velocity_algorithm: algorithm,
        }
    }

    /// A simulation rebuilt from a saved snapshot of its whole state.
    pub fn from_state(
        time: i128,
        iteration: usize,
        viscosity: i128,
        free_stream_velocity: Vector3,
        vortons: Vec<Vorton>,
        algorithm: VortonToVelocityAlgorithm,
    ) -> (r: Simulation)
        requires
            -LIM <= time <= LIM,
            0 <= viscosity <= LIM,
            vec_wf(free_stream_velocity),
            vortons_wf(vortons@),
        ensures
            r == (Simulation {
                time,
                iteration,
                viscosity,
                free_stream_velocity,
                vortons,
                vorton_to_velocity_algorithm: algorithm,
            }),
            sim_wf(r),
    {
        Simulation {
            time,
            iteration,
            viscosity,
            free_stream_velocity,
            vortons,
            vorton_to_velocity_algorithm: algorithm,
        }
    }

    /// How many steps have been taken.
    pub fn iteration(&self) -> (r: usize)
        ensures
            r == self.iteration,
    {
        self.iteration
    }

    /// The simulated time.
    pub fn time(&self) -> (r: i128)
        ensures
            r == self.time,
    {
        self.time
    }

    /// The current particle set.
    pub fn vortons(&self) -> (r: &Vec<Vorton>)
        ensures
            r == self.vortons,
    {
        &self.vortons
    }

    /// Select the velocity evaluator used by later steps.
    pub fn use_vorton_to_velocity(&mut self, algorithm: VortonToVelocityAlgorithm)
        ensures
            *final(self) == (Simulation { vorton_to_velocity_algorithm: algorithm, ..*old(self) }),
    {
        self.vorton_to_velocity_algorithm = algorithm;
    }

    /// The velocity at `position` under the current particle set: the free
    /// stream plus every particle's kernel contribution.
    pub fn velocity_at(&self, position: &Point3) -> (r: Vector3)
        requires
            sim_wf(*self),
            point_wf(*position),
        ensures
            r == spec_velocity_sum(self.vortons@, self.free_stream_velocity, *position),
            vec_wf(r),
    {
        velocity_at(&self.vortons, &self.free_stream_velocity, position)
    }

    /// One iteration with the given positive time step: the iteration count
    /// grows by one and the time by exactly `time_step`; the particle set
    /// is diffused and then advected. An invalid level count of the
    /// hierarchical evaluator aborts the advection sub-step, leaving the
    /// diffusion applied (the step is not atomic).
    pub fn step(&mut self, time_step: i128) -> (r: Result<(), VortexError>)
        requires
            sim_wf(*old(self)),
            1 <= time_step <= LIM,
            old(self).iteration < usize::MAX,
            -LIM <= old(self).time + time_step <= LIM,
        ensures
            final(self).iteration == old(self).iteration + 1,
            final(self).time == old(self).time + time_step,
            final(self).viscosity == old(self).viscosity,
            final(self).free_stream_velocity == old(self).free_stream_velocity,
            final(self).vorton_to_velocity_algorithm == old(self).vorton_to_velocity_algorithm,
            sim_wf(*final(self)),
            final(self).vortons@.len() <= old(self).vortons@.len(),
            ({
                let stepped = spec_step_vorticity(old(self).vortons@, old(self).viscosity as int,
                    time_step as int);
                match r {
                    Ok(()) => final(self).vortons@ == spec_advect_filtered(stepped, stepped,
                        old(self).free_stream_velocity,
                        old(self).vorton_to_velocity_algorithm, time_step as int),
                    Err(e) => final(self).vortons@ == stepped && e
                        == VortexError::InvalidLevelCount,
                }
            }),
            r is Err <==> (old(self).vorton_to_velocity_algorithm matches
                VortonToVelocityAlgorithm::Tree(n) && (n == 0 || n > TREE_MAX_LEVELS)),
    {
        self.iteration = self.iteration + 1;
        self.time = self.time + time_step;
        self.step_vorticity(time_step);
        self.advect_vortons(time_step)
    }

    /// The diffusion sub-step: relax every particle's vorticity toward zero
    /// at a rate proportional to the viscosity.
    pub fn step_vorticity(&mut self, time_step: i128)
        requires
            sim_wf(*old(self)),
            1 <= time_step <= LIM,
        ensures
            final(self).vortons@ == spec_step_vorticity(old(self).vortons@,
                old(self).viscosity as int, time_step as int),
            final(self).time == old(self).time,
            final(self).iteration == old(self).iteration,
            final(self).viscosity == old(self).viscosity,
            final(self).free_stream_velocity == old(self).free_stream_velocity,
            final(self).vorton_to_velocity_algorithm == old(self).vorton_to_velocity_algorithm,
            sim_wf(*final(self)),
            final(self).vortons@.len() == old(self).vortons@.len(),
    {
        let ghost snap = self.vortons@;
        let ghost viscosity = self.viscosity as int;
        let factor: i128 = -fx::fmul(DIFFUSION_RATE, self.viscosity);
        let mut out: Vec<Vorton> = Vec::new();
        let mut idx: usize = 0;
        while idx < self.vortons.len()
            invariant
                0 <= idx <= self.vortons@.len(),
                snap == self.vortons@,
                vortons_wf(snap),
                1 <= time_step <= LIM,
                factor == -fx::spec_fmul(DIFFUSION_RATE as int, viscosity),
                -LIM <= factor <= LIM,
                out@ == spec_step_vorticity(snap.subrange(0, idx as int), viscosity,
                    time_step as int),
                vortons_wf(out@),
            decreases self.vortons@.len() - idx,
        {
            let v = &self.vortons[idx];
            let source = v.vorticity.scale(factor);
            out.push(v.step(&source, time_step));
            proof {
                assert(out@ =~= spec_step_vorticity(snap.subrange(0, idx + 1), viscosity,
                    time_step as int));
            }
            idx = idx + 1;
        }
        proof {
            assert(snap.subrange(0, snap.len() as int) =~= snap);
        }
        self.vortons = out;
    }

    /// The advection sub-step: build the selected evaluator over the frozen
    /// particle snapshot, move every particle with vorticity above the
    /// culling threshold along the velocity at its own (unmoved) position,
    /// and drop the rest. Fails only when the hierarchical evaluator's
    /// level count is invalid, leaving the particle set unchanged.
    pub fn advect_vortons(&mut self, time_step: i128) -> (r: Result<(), VortexError>)
        requires
            sim_wf(*old(self)),
            1 <= time_step <= LIM,
        ensures
            final(self).time == old(self).time,
            final(self).iteration == old(self).iteration,
            final(self).viscosity == old(self).viscosity,
            final(self).free_stream_velocity == old(self).free_stream_velocity,
            final(self).vorton_to_velocity_algorithm == old(self).vorton_to_velocity_algorithm,
            sim_wf(*final(self)),
            final(self).vortons@.len() <= old(self).vortons@.len(),
            match r {
                Ok(()) => final(self).vortons@ == spec_advect_filtered(old(self).vortons@,
                    old(self).vortons@, old(self).free_stream_velocity,
                    old(self).vorton_to_velocity_algorithm, time_step as int),
                Err(e) => final(self).vortons@ == old(self).vortons@ && e
                    == VortexError::InvalidLevelCount,
            },
            r is Err <==> (old(self).vorton_to_velocity_algorithm matches
                VortonToVelocityAlgorithm::Tree(n) && (n == 0 || n > TREE_MAX_LEVELS)),
    {
        let ghost snap = self.vortons@;
        let ghost alg = self.vorton_to_velocity_algorithm;
        let ghost free = self.free_stream_velocity;
        let eval: Evaluator = match self.vorton_to_velocity_algorithm {
            VortonToVelocityAlgorithm::Simple => Evaluator::Simple(
                VortonToVelocitySimple::new(&self.vortons, Vector3::zero()),
            ),
            VortonToVelocityAlgorithm::Tree(n) => {
                match VortonToVelocityTree::new(&self.vortons, n) {
                    Ok(t) => Evaluator::Tree(t),
                    Err(e) => {
                        return Err(e);
                    },
                }
            },
        };
        proof {
            assert(eval_ok(eval, snap, alg));
        }
        let mut out: Vec<Vorton> = Vec::new();
        let mut idx: usize = 0;
        while idx < self.vortons.len()
            invariant
                0 <= idx <= self.vortons@.len(),
                snap == self.vortons@,
                free == self.free_stream_velocity,
                vortons_wf(snap),
                vec_wf(free),
                1 <= time_step <= LIM,
                eval_ok(eval, snap, alg),
                out@ == spec_advect_filtered(snap, snap.subrange(0, idx as int), free, alg,
                    time_step as int),
                out@.len() <= idx,
                vortons_wf(out@),
            decreases self.vortons@.len() - idx,
        {
            proof {
                assert(snap.subrange(0, idx + 1).drop_last() =~= snap.subrange(0, idx as int));
                assert(snap.subrange(0, idx + 1).last() == snap[idx as int]);
            }
            let v = &self.vortons[idx];
            if v.vorticity.norm() > CULL_THRESHOLD {
                let contribution: Vector3 = match &eval {
                    Evaluator::Simple(s) => s.velocity_at(&v.position),
                    Evaluator::Tree(t) => {
                        match t.velocity_at(&v.position) {
                            Ok(c) => c,
                            Err(_) => Vector3::zero(),
                        }
                    },
                };
                proof {
                    assert(contribution == spec_eval_contribution(snap, alg,
                        snap[idx as int].position));
                }
                let velocity = self.free_stream_velocity.add(&contribution);
                out.push(v.advect(&velocity, time_step));
            }
            idx = idx + 1;
        }
        proof {
            assert(snap.subrange(0, snap.len() as int) =~= snap);
        }
        self.vortons = out;
        Ok(())
    }
}

} // verus!
