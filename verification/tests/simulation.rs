//! The stepping pipeline: diffusion, advection, culling.

use vortex_particle_simulation::{
    Action, Config, Initial, Output, Point3, Save, Simulation, Vector3, Vorton, VortexError,
    VortonToVelocityAlgorithm,
};

const S: i128 = 1_000_000_000;
const DT: i128 = 30_000_000;  // 0.03

fn sample_vortons() -> Vec<Vorton> {
    vec![
        Vorton::new(Point3::new(S, 0, 0), Vector3::new(-S, 0, 0), S / 10),
        Vorton::new(Point3::new(3 * S, 0, 0), Vector3::new(S, 0, 0), S / 10),
        Vorton::new(Point3::new(0, S, 0), Vector3::new(0, 0, S / 2), S / 20),
    ]
}

#[test]
fn step_advances_iteration_and_time() {
    // For every positive time step the iteration count grows by one and
    // the time by exactly the step, whatever the evaluator.
    for alg in [VortonToVelocityAlgorithm::Simple, VortonToVelocityAlgorithm::Tree(4)] {
        let mut sim = Simulation::new(100_000, Vector3::new(2 * S, 0, 0), sample_vortons(), alg);
        assert_eq!(sim.iteration(), 0);
        assert_eq!(sim.time(), 0);
        sim.step(DT).unwrap();
        assert_eq!(sim.iteration(), 1);
        assert_eq!(sim.time(), DT);
        sim.step(7).unwrap();
        assert_eq!(sim.iteration(), 2);
        assert_eq!(sim.time(), DT + 7);
    }
}

#[test]
fn advection_never_adds_particles() {
    let mut sim = Simulation::new(
        100_000,
        Vector3::new(2 * S, 0, 0),
        sample_vortons(),
        VortonToVelocityAlgorithm::Simple,
    );
    let mut previous = sim.vortons().len();
    for _ in 0..10 {
        sim.step(DT).unwrap();
        assert!(sim.vortons().len() <= previous);
        previous = sim.vortons().len();
    }
}

#[test]
fn fully_diffused_particles_are_culled() {
    // One particle's vorticity magnitude sits below the culling threshold
    // (1e-5): the advection sub-step drops it and keeps the others.
    let vortons = vec![
        Vorton::new(Point3::new(S, 0, 0), Vector3::new(-S, 0, 0), S / 10),
        Vorton::new(Point3::new(0, S, 0), Vector3::new(5_000, 0, 0), S / 10),
    ];
    let mut sim = Simulation::new(
        0,
        Vector3::zero(),
        vortons,
        VortonToVelocityAlgorithm::Simple,
    );
    sim.step(DT).unwrap();
    assert_eq!(sim.vortons().len(), 1);
    assert_eq!(sim.vortons()[0].vorticity().x, -S);
}

#[test]
fn diffusion_relaxes_vorticity_toward_zero() {
    // With viscosity 1.0 and dt 0.5 the source is -0.1 * vorticity, so one
    // step scales the vorticity by 0.95.
    let vortons = vec![Vorton::new(Point3::new(0, 0, 0), Vector3::new(S, 0, 0), S / 10)];
    let mut sim = Simulation::new(S, Vector3::zero(), vortons, VortonToVelocityAlgorithm::Simple);
    sim.step(S / 2).unwrap();
    assert_eq!(sim.vortons()[0].vorticity().x, 950_000_000);
}

#[test]
fn invalid_tree_depth_aborts_advection_after_diffusion() {
    // The step is not atomic: a failing advection leaves the iteration
    // advanced and the diffusion applied, with no particle moved or culled.
    let mut sim = Simulation::new(
        S,
        Vector3::zero(),
        sample_vortons(),
        VortonToVelocityAlgorithm::Tree(0),
    );
    let r = sim.step(S / 2);
    assert_eq!(r, Err(VortexError::InvalidLevelCount));
    assert_eq!(sim.iteration(), 1);
    assert_eq!(sim.time(), S / 2);
    assert_eq!(sim.vortons().len(), 3);
    assert_eq!(sim.vortons()[0].vorticity().x, -950_000_000);
}

#[test]
fn velocity_at_starts_from_free_stream() {
    let sim = Simulation::new(
        0,
        Vector3::new(2 * S, S, 0),
        Vec::new(),
        VortonToVelocityAlgorithm::Simple,
    );
    assert_eq!(sim.velocity_at(&Point3::new(0, 0, 0)), Vector3::new(2 * S, S, 0));
}

#[test]
fn evaluator_selection_is_replaceable() {
    let mut sim = Simulation::new(
        0,
        Vector3::zero(),
        sample_vortons(),
        VortonToVelocityAlgorithm::Simple,
    );
    sim.use_vorton_to_velocity(VortonToVelocityAlgorithm::Tree(5));
    assert_eq!(
        sim.vorton_to_velocity_algorithm,
        VortonToVelocityAlgorithm::Tree(5)
    );
}

#[test]
fn run_plan_validity() {
    let plan = Config {
        action: Action::Run,
        output: Output::CSV(String::from("out")),
        initial: Initial::Init(String::from("case.txt")),
        save: Save::Nothing,
        n_iterations: 100,
        time_step: DT,
        vorton_to_velocity_algorithm: VortonToVelocityAlgorithm::Simple,
    };
    assert!(plan.is_valid());
    let bad = Config { time_step: 0, ..plan };
    assert!(!bad.is_valid());
    match bad.initial {
        Initial::Init(p) => assert_eq!(p, "case.txt"),
        Initial::Restart(_) | Initial::Nothing => panic!("wrong plan source"),
    }
}
