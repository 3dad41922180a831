//! The exact and the hierarchical velocity evaluators.

use vortex_particle_simulation::{
    Point3, SuperVorton, Vector3, Vorton, VortexError, VortonToVelocitySimple,
    VortonToVelocityTree,
};

const S: i128 = 1_000_000_000;

fn two_separated_vortons() -> Vec<Vorton> {
    vec![
        Vorton::new(Point3::new(S, 0, 0), Vector3::new(-S, 0, 0), S / 10),
        Vorton::new(Point3::new(3 * S, 0, 0), Vector3::new(S, 0, 0), S / 10),
    ]
}

#[test]
fn simple_evaluator_is_deterministic() {
    // The exact evaluator is a pure function of the frozen snapshot and the
    // query point: two evaluations give bit-identical results.
    let vortons = two_separated_vortons();
    let eval = VortonToVelocitySimple::new(&vortons, Vector3::new(2 * S, 0, 0));
    let q = Point3::new(S / 2, S / 4, -S);
    let first = eval.velocity_at(&q);
    let second = eval.velocity_at(&q);
    assert_eq!(first, second);
    let again = VortonToVelocitySimple::new(&vortons, Vector3::new(2 * S, 0, 0));
    assert_eq!(again.velocity_at(&q), first);
}

#[test]
fn simple_evaluator_adds_ambient_velocity() {
    let eval = VortonToVelocitySimple::new(&Vec::new(), Vector3::new(2 * S, -S, 0));
    let v = eval.velocity_at(&Point3::new(0, 0, 0));
    assert_eq!(v, Vector3::new(2 * S, -S, 0));
}

#[test]
fn merged_aggregate_centroid_is_midpoint() {
    // Equal volumes and strengths at x = 1 and x = 3: the aggregate
    // centroid is x = 2 within 1e-6.
    let vortons = two_separated_vortons();
    let sv = SuperVorton::from_vortons(&vortons);
    assert!((sv.vorton().position().x - 2 * S).abs() < 1000);
}

#[test]
fn tree_rejects_invalid_level_counts() {
    let vortons = two_separated_vortons();
    assert!(matches!(
        VortonToVelocityTree::new(&vortons, 0),
        Err(VortexError::InvalidLevelCount)
    ));
    assert!(matches!(
        VortonToVelocityTree::new(&vortons, 21),
        Err(VortexError::InvalidLevelCount)
    ));
    assert!(VortonToVelocityTree::new(&vortons, 1).is_ok());
    assert!(VortonToVelocityTree::new(&vortons, 20).is_ok());
}

#[test]
fn tree_matches_simple_within_tolerance() {
    // As the hierarchy deepens the tree result stays within the configured
    // error tolerance (0.05) of the exact sum.
    let vortons = two_separated_vortons();
    let simple = VortonToVelocitySimple::new(&vortons, Vector3::zero());
    let queries = [
        Point3::new(2 * S, S, 0),
        Point3::new(S / 2, S / 4, -S),
        Point3::new(3 * S, -S, S / 2),
    ];
    for n_levels in 1..=6usize {
        let tree = VortonToVelocityTree::new(&vortons, n_levels).unwrap();
        for q in queries.iter() {
            let exact = simple.velocity_at(q);
            let approx = tree.velocity_at(q).unwrap();
            let d = exact.sub(&approx);
            assert!(d.norm() < 50_000_000, "levels {n_levels}: {d:?}");
        }
    }
}

#[test]
fn single_level_tree_is_exact() {
    // With one level the hierarchy holds the raw vortons in a single cell:
    // a query sums the very same contributions as the exact evaluator.
    let vortons = two_separated_vortons();
    let simple = VortonToVelocitySimple::new(&vortons, Vector3::zero());
    let tree = VortonToVelocityTree::new(&vortons, 1).unwrap();
    let q = Point3::new(2 * S, S, 0);
    assert_eq!(tree.velocity_at(&q).unwrap(), simple.velocity_at(&q));
}

#[test]
fn handmade_inconsistent_hierarchy_is_reported() {
    // A pyramid whose grid and info chains differ in height is refused.
    let vortons = two_separated_vortons();
    let good = VortonToVelocityTree::new(&vortons, 2).unwrap();
    let broken = VortonToVelocityTree {
        vortons: good.vortons,
        n_grids: good.n_grids,
        grids: good.grids,
        infos: Vec::new(),
    };
    assert_eq!(
        broken.velocity_at(&Point3::new(0, 0, 0)),
        Err(VortexError::InconsistentHierarchy)
    );
}

#[test]
fn empty_tree_contributes_nothing() {
    let tree = VortonToVelocityTree::new(&Vec::new(), 3).unwrap();
    assert_eq!(tree.velocity_at(&Point3::new(S, S, S)).unwrap(), Vector3::zero());
}
