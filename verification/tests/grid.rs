//! The cubic grid of the hierarchical evaluator.

use vortex_particle_simulation::{Grid, Point3, Vector3, Vorton};

const S: i128 = 1_000_000_000;

fn unit_box_vortons() -> Vec<Vorton> {
    vec![
        Vorton::new(Point3::new(0, 0, 0), Vector3::new(S, 0, 0), S / 10),
        Vorton::new(Point3::new(S, S, S), Vector3::new(0, S, 0), S / 10),
    ]
}

#[test]
fn grid_fits_padded_bounding_box() {
    let g = Grid::from_vortons(&unit_box_vortons());
    // The box from the origin to (1,1,1) padded by one percent and
    // centered: edge 1.01, corner at -0.005.
    assert_eq!(g.delta, 1_010_000_000);
    assert_eq!(g.n_cell, 1);
    assert_eq!(g.start.x, -5_000_000);
    assert_eq!(g.start.y, -5_000_000);
    assert_eq!(g.start.z, -5_000_000);
}

#[test]
fn empty_set_falls_back_to_unit_box() {
    let g = Grid::from_vortons(&Vec::new());
    assert_eq!(g.delta, 1_010_000_000);
    assert_eq!(g.start.x, -5_000_000);
    assert_eq!(g.n_cell, 1);
}

#[test]
fn degenerate_box_keeps_positive_edge() {
    // All particles at one point: the padded extent is zero, yet the cube
    // keeps the smallest representable positive edge.
    let v = vec![Vorton::new(Point3::new(S, S, S), Vector3::new(S, 0, 0), S / 10)];
    let g = Grid::from_vortons(&v);
    assert_eq!(g.delta, 1);
    assert!(g.cell_ijk(&Point3::new(S, S, S)).is_some());
}

#[test]
fn refine_doubles_cells_and_halves_cell_length() {
    let g = Grid::from_vortons(&unit_box_vortons());
    let g2 = g.refine().refine();
    assert_eq!(g2.n_cell, 4);
    assert_eq!(g2.delta, g.delta);
    assert_eq!(g2.cell_length(), g.delta / 4);
}

#[test]
fn cell_ijk_maps_points_to_cells() {
    let g = Grid::from_vortons(&unit_box_vortons()).refine().refine();
    // The point (0.5, 0.5, 0.5) lands in cell 2 of 4 per axis.
    assert_eq!(g.cell_ijk(&Point3::new(S / 2, S / 2, S / 2)), Some((2, 2, 2)));
    // The near corner is cell 0, the far corner index reaches n_cell.
    assert_eq!(g.cell_ijk(&Point3::new(-5_000_000, -5_000_000, -5_000_000)), Some((0, 0, 0)));
    assert_eq!(
        g.cell_ijk(&Point3::new(1_005_000_000, 1_005_000_000, 1_005_000_000)),
        Some((4, 4, 4))
    );
    // A point outside the cube has no cell.
    assert_eq!(g.cell_ijk(&Point3::new(2 * S, 0, 0)), None);
    assert_eq!(g.cell_ijk(&Point3::new(0, -S, 0)), None);
}

#[test]
fn cell_center_is_midpoint() {
    let g = Grid::from_vortons(&unit_box_vortons());
    let c = g.cell_center(0, 0, 0);
    // A single cell spanning the cube: its center is the cube's middle.
    assert_eq!(c.x, -5_000_000 + 1_010_000_000 / 2);
    let g4 = g.refine().refine();
    let c0 = g4.cell_center(0, 0, 0);
    assert_eq!(c0.x, -5_000_000 + 1_010_000_000 / 8);
}
