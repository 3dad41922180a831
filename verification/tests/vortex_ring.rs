//! End-to-end scenario: a torus-shaped vorticity region stepped with both
//! evaluators stays close in total circulation, and the particle count
//! never grows.

use vortex_particle_simulation::{
    Point3, Simulation, Vector3, Vorton, VortonToVelocityAlgorithm,
};

const S: i128 = 1_000_000_000;
const DT: i128 = 30_000_000;  // 0.03

fn fix(v: f64) -> i128 {
    (v * 1.0e9).round() as i128
}

/// The vorticity of a vortex ring around the x axis: radius 1, thickness
/// 0.5, intensity 1, centered at the origin.
fn ring_vorticity(x: f64, y: f64, z: f64) -> (f64, f64, f64) {
    let d_dir = x;
    let rad = (y * y + z * z).sqrt();
    let d_rad = rad - 1.0;
    let d = (d_dir * d_dir + d_rad * d_rad).sqrt();
    if d < 0.5 && rad > 1.0e-9 {
        let magnitude = 0.5 + 0.5 * (std::f64::consts::PI * d / 0.5).cos();
        // dir x v_rad, normalized: the tangential direction of the ring.
        let t = (-z / rad, y / rad);
        (0.0, magnitude * t.0, magnitude * t.1)
    } else {
        (0.0, 0.0, 0.0)
    }
}

/// Seed the ring over a uniform lattice spanning its bounding box, keeping
/// cells whose sampled vorticity is non-negligible.
fn seed_ring() -> Vec<Vorton> {
    let n = 6usize;
    let (x0, x1) = (-0.55, 0.55);
    let (r0, r1) = (-1.65, 1.65);
    let dx = (x1 - x0) / n as f64;
    let dr = (r1 - r0) / n as f64;
    let volume = dx * dr * dr;
    let mut out = Vec::new();
    for i in 0..n {
        for j in 0..n {
            for k in 0..n {
                let x = x0 + (i as f64 + 0.5) * dx;
                let y = r0 + (j as f64 + 0.5) * dr;
                let z = r0 + (k as f64 + 0.5) * dr;
                let (wx, wy, wz) = ring_vorticity(x, y, z);
                if (wx * wx + wy * wy + wz * wz).sqrt() > 1.0e-5 {
                    out.push(Vorton::new(
                        Point3::new(fix(x), fix(y), fix(z)),
                        Vector3::new(fix(wx), fix(wy), fix(wz)),
                        fix(volume),
                    ));
                }
            }
        }
    }
    out
}

/// Total circulation: the sum of vorticity magnitude times volume.
fn circulation(sim: &Simulation) -> i128 {
    let mut total: i128 = 0;
    for v in sim.vortons().iter() {
        total += v.vorticity().norm() * v.volume() / S;
    }
    total
}

fn run(alg: VortonToVelocityAlgorithm) -> (i128, usize) {
    let mut sim = Simulation::new(fix(1.0e-5), Vector3::new(fix(0.1), 0, 0), seed_ring(), alg);
    let mut count = sim.vortons().len();
    assert!(count > 10, "the seeding kept too few particles: {count}");
    for _ in 0..100 {
        sim.step(DT).unwrap();
        assert!(sim.vortons().len() <= count);
        count = sim.vortons().len();
    }
    (circulation(&sim), count)
}

#[test]
fn ring_runs_agree_between_evaluators() {
    let (c_simple, n_simple) = run(VortonToVelocityAlgorithm::Simple);
    let (c_tree, n_tree) = run(VortonToVelocityAlgorithm::Tree(6));
    assert!(c_simple > 0);
    assert!(c_tree > 0);
    assert_eq!(n_simple, n_tree);
    // The two evaluators conserve total circulation within a few percent of
    // each other.
    let diff = (c_simple - c_tree).abs();
    assert!(20 * diff <= c_simple, "circulation drifted: {c_simple} vs {c_tree}");
}
