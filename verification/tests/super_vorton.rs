//! Aggregation of vortons into super-vortons.

use vortex_particle_simulation::{Point3, SuperVorton, Vector3, Vorton};

const S: i128 = 1_000_000_000;

fn vorton(px: i128, py: i128, pz: i128, wx: i128, wy: i128, wz: i128, vol: i128) -> Vorton {
    Vorton::new(Point3::new(px, py, pz), Vector3::new(wx, wy, wz), vol)
}

#[test]
fn it_adds() {
    // Two equal-volume, equal-strength vortons at x = 1 and x = 3: the
    // aggregate sits at their midpoint.
    let v1 = vorton(S, 0, 0, -S, 0, 0, S / 10);
    let v2 = vorton(3 * S, 0, 0, S, 0, 0, S / 10);
    let v = SuperVorton::default().add_vorton(&v1).add_vorton(&v2);
    assert!(v.vorton().position().x.abs() - 2 * S < 1000);
    assert!((v.vorton().position().x - 2 * S).abs() < 1000);

    // Three vortons of volumes 0.05, 0.05, 0.1: the volumes add exactly;
    // the centroid weighted by mean vorticity magnitude times volume lands
    // at x = 1.5 (weights 0.1 and 0.1 over positions 0 and 3).
    let v1 = vorton(-3 * S, 0, 0, -S, 0, 0, S / 20);
    let v2 = vorton(3 * S, 0, 0, S, 0, 0, S / 20);
    let v3 = vorton(3 * S, 0, 0, S, 0, 0, S / 10);
    let v = SuperVorton::default().add_vorton(&v1).add_vorton(&v2);
    let v = v.add_vorton(&v3);
    assert!((v.vorton().position().x - 3 * S / 2).abs() < 1000);
    assert!((v.vorton().volume() - S / 5).abs() < 1000);
    assert_eq!(v.n_vortons(), 3);
}

#[test]
fn merge_combines_statistics() {
    let a = SuperVorton::from_vorton(&vorton(0, 0, 0, 2 * S, 0, 0, S / 10));
    let b = SuperVorton::from_vorton(&vorton(S, 0, 0, 0, 3 * S, 0, S / 5));
    let m = a.merge(&b);
    assert_eq!(m.n_vortons(), 2);
    assert_eq!(m.max_vorticity(), 3 * S);
    assert!((m.vorton().volume() - 3 * S / 10).abs() < 2);
}

#[test]
fn merge_is_associative_in_volume_count_and_max() {
    let a = SuperVorton::from_vorton(&vorton(-3 * S, 0, 0, -S, 0, 0, S / 20));
    let b = SuperVorton::from_vorton(&vorton(3 * S, 0, 0, S, 0, 0, S / 20));
    let c = SuperVorton::from_vorton(&vorton(3 * S, 0, 0, S, 0, 0, S / 10));
    let left = a.merge(&b).merge(&c);
    let right = a.merge(&b.merge(&c));
    assert_eq!(left.vorton().volume(), right.vorton().volume());
    assert_eq!(left.max_vorticity(), right.max_vorticity());
    assert_eq!(left.n_vortons(), right.n_vortons());
    // The centroids of the two orders agree within rounding.
    assert!((left.vorton().position().x - right.vorton().position().x).abs() < 1000);
}

#[test]
fn from_vorton_is_degenerate_aggregate() {
    let v = vorton(S, 2 * S, 0, 0, 0, 4 * S, S / 10);
    let s = SuperVorton::from_vorton(&v);
    assert_eq!(s.n_vortons(), 1);
    assert_eq!(s.max_vorticity(), 4 * S);
    assert_eq!(s.vorton().position().x, S);
    assert_eq!(s.vorton().volume(), S / 10);
}
