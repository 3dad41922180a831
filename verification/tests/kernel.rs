//! The vorton's regularized induced-velocity kernel.

use vortex_particle_simulation::{Point3, Vector3, Vorton, VortexError};

const S: i128 = 1_000_000_000;

#[test]
fn contribution_at_own_position_is_zero() {
    // At its own position the query point falls inside the regularized
    // core: the kernel is well-defined and the induced velocity is zero.
    let v = Vorton::new(
        Point3::new(S, 2 * S, 3 * S),
        Vector3::new(S / 2, S / 5, -S),
        S / 10,
    );
    let c = v.velocity_contribution(&Point3::new(S, 2 * S, 3 * S));
    assert_eq!(c.x, 0);
    assert_eq!(c.y, 0);
    assert_eq!(c.z, 0);
    assert!(v.is_inside(&Point3::new(S, 2 * S, 3 * S)));
}

#[test]
fn contribution_inside_core_is_flattened() {
    // A query point 0.1 away from a vorton of volume 0.1 lies well inside
    // the core (ratio ~ 0.0419 < 8), so the kernel divides by the constant
    // 24 instead of the inverse-cube law: (omega x r) / 24.
    let v = Vorton::new(Point3::new(0, 0, 0), Vector3::new(0, 0, S), S / 10);
    let c = v.velocity_contribution(&Point3::new(S / 10, 0, 0));
    // omega x r = (0, 0.1, 0); divided by 24.
    assert_eq!(c.x, 0);
    assert_eq!(c.y, 4_166_666);
    assert_eq!(c.z, 0);
}

#[test]
fn contribution_is_finite_far_away() {
    let v = Vorton::new(Point3::new(0, 0, 0), Vector3::new(0, 0, S), S / 10);
    let far = v.velocity_contribution(&Point3::new(100 * S, 0, 0));
    // Far from the core the contribution decays toward zero.
    assert!(far.y.abs() < 1000);
    assert!(!v.is_inside(&Point3::new(100 * S, 0, 0)));
}

#[test]
fn advect_moves_position_only() {
    let v = Vorton::new(Point3::new(S, 0, 0), Vector3::new(0, S, 0), S / 10);
    let moved = v.advect(&Vector3::new(2 * S, 0, -S), 30_000_000);
    // position += velocity * dt with dt = 0.03.
    assert_eq!(moved.position().x, S + 60_000_000);
    assert_eq!(moved.position().y, 0);
    assert_eq!(moved.position().z, -30_000_000);
    assert_eq!(moved.vorticity().y, S);
    assert_eq!(moved.volume(), S / 10);
}

#[test]
fn step_updates_vorticity_only() {
    let v = Vorton::new(Point3::new(S, 0, 0), Vector3::new(0, S, 0), S / 10);
    let stepped = v.step(&Vector3::new(0, -S, 0), 500_000_000);
    // vorticity += source * dt with dt = 0.5.
    assert_eq!(stepped.vorticity().y, S / 2);
    assert_eq!(stepped.position().x, S);
    assert_eq!(stepped.volume(), S / 10);
}

#[test]
fn make_velocity_at_rejects_coincident_points() {
    let r = Vorton::make_velocity_at(
        Point3::new(S, S, S),
        S / 10,
        (&Point3::new(S, S, S), &Vector3::new(S, 0, 0)),
    );
    assert_eq!(r, Err(VortexError::DegenerateGeometry));
}

#[test]
fn make_velocity_at_rejects_colinear_geometry() {
    // The target velocity is parallel to the separation vector: the cross
    // product vanishes and no vorticity direction exists.
    let r = Vorton::make_velocity_at(
        Point3::new(0, 0, 0),
        S / 10,
        (&Point3::new(S, 0, 0), &Vector3::new(2 * S, 0, 0)),
    );
    assert_eq!(r, Err(VortexError::DegenerateGeometry));
}

#[test]
fn make_velocity_at_accepts_well_posed_geometry() {
    let r = Vorton::make_velocity_at(
        Point3::new(0, 0, 0),
        S / 10,
        (&Point3::new(S, 0, 0), &Vector3::new(0, S, 0)),
    );
    let v = r.unwrap();
    assert_eq!(v.position().x, 0);
    assert_eq!(v.volume(), S / 10);
    // The solved vorticity is orthogonal to both the separation and the
    // target velocity: along z here.
    assert_eq!(v.vorticity().x, 0);
    assert_eq!(v.vorticity().y, 0);
    assert!(v.vorticity().z != 0);
}
