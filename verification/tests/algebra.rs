//! Fixed-point scalar, vector and point arithmetic.

use vortex_particle_simulation::fx;
use vortex_particle_simulation::{Point3, Vector3};

const S: i128 = 1_000_000_000;

#[test]
fn scalar_operations_are_exact() {
    assert_eq!(fx::fadd(2 * S, 3 * S), 5 * S);
    assert_eq!(fx::fsub(2 * S, 3 * S), -S);
    assert_eq!(fx::fmul(S / 2, 6 * S), 3 * S);
    assert_eq!(fx::fdiv(3 * S, 2 * S), S + S / 2);
    assert_eq!(fx::fmax(-S, S), S);
    assert_eq!(fx::fmin(-S, S), -S);
    assert_eq!(fx::fabs(-7), 7);
}

#[test]
fn scalar_operations_saturate() {
    assert_eq!(fx::fadd(fx::LIM, fx::LIM), fx::LIM);
    assert_eq!(fx::fsub(-fx::LIM, fx::LIM), -fx::LIM);
    assert_eq!(fx::fmul(fx::LIM, fx::LIM), fx::LIM);
}

#[test]
fn division_truncates_toward_zero() {
    assert_eq!(fx::tdiv_x(7, 2), 3);
    assert_eq!(fx::tdiv_x(-7, 2), -3);
}

#[test]
fn integer_square_root() {
    assert_eq!(fx::isqrt(0), 0);
    assert_eq!(fx::isqrt(1), 1);
    assert_eq!(fx::isqrt(15), 3);
    assert_eq!(fx::isqrt(16), 4);
    assert_eq!(fx::isqrt(25_000_000_000_000_000_000_000_000_000_000), 5_000_000_000_000_000);
    assert_eq!(fx::isqrt(fx::SQRT_ARG_LIM), 2_000_000_000_000_000_000);
}

#[test]
fn vector_norm_and_normalize() {
    let v = Vector3::new(3 * S, 4 * S, 0);
    assert_eq!(v.norm(), 5 * S);
    let n = v.normalize();
    assert_eq!(n.x, 600_000_000);
    assert_eq!(n.y, 800_000_000);
    assert_eq!(n.z, 0);
    // The zero vector has no direction; normalization falls back to x.
    assert_eq!(Vector3::zero().normalize(), Vector3::unit_x());
}

#[test]
fn vector_cross_and_dot() {
    let x = Vector3::unit_x();
    let y = Vector3::unit_y();
    assert_eq!(x.cross(&y), Vector3::unit_z());
    assert_eq!(y.cross(&x), Vector3::new(0, 0, -S));
    assert_eq!(x.dot(&y), 0);
    let v = Vector3::new(2 * S, -S, S / 2);
    assert_eq!(v.dot(&v), 4 * S + S + S / 4);
}

#[test]
fn vector_orthogonal_is_orthogonal() {
    let v = Vector3::new(S, 2 * S, -S);
    assert_eq!(v.orthogonal().dot(&v), 0);
    // A vector along x is handled by the fallback axis.
    let along_x = Vector3::new(3 * S, 0, 0);
    assert_eq!(along_x.orthogonal().dot(&along_x), 0);
    assert!(along_x.orthogonal() != Vector3::zero());
}

#[test]
fn point_operations() {
    let a = Point3::new(S, 2 * S, 3 * S);
    let b = Point3::new(2 * S, 0, 3 * S);
    assert_eq!(a.min(&b), Point3::new(S, 0, 3 * S));
    assert_eq!(a.max(&b), Point3::new(2 * S, 2 * S, 3 * S));
    assert_eq!(a.sub(&b), Vector3::new(-S, 2 * S, 0));
    assert_eq!(a.add_vector(&Vector3::new(S, -S, S)), Point3::new(2 * S, S, 4 * S));
    assert_eq!(Point3::origin(), Point3::new(0, 0, 0));
}
