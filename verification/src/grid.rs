//! The cubic grid that underlies the hierarchical velocity evaluator.
//!
//! A grid is an axis-aligned cube of edge length `delta` starting at
//! `start`, subdivided into `n_cell` cells per axis. It is sized from the
//! bounding box of a vorton set, padded by one percent so the box stays
//! strictly inside, and refined by doubling the per-axis cell count.

use vstd::prelude::*;
use vstd::arithmetic::div_mod::{lemma_div_is_ordered, lemma_div_multiples_vanish,
    lemma_div_pos_is_pos};
use vstd::arithmetic::mul::{lemma_mul_inequality, lemma_mul_nonnegative};
use crate::fx;
use crate::fx::{HALF_LIM, POS_LIM};
use crate::point3::{Point3, point_wf, spec_pmin, spec_pmax};
use crate::vorton::Vorton;
use crate::super_vorton::vortons_wf;

verus! {

/// Largest supported per-axis cell count (the finest grid of the deepest
/// supported hierarchy).
pub const MAX_N_CELL: u64 = 1_048_576;

/// Bound on the magnitude of a grid's starting corner coordinates.
pub const GRID_START_LIM: i128 = 250_000_000_000_000_000;

/// Bound on a grid's edge length.
pub const GRID_DELTA_LIM: i128 = 210_000_000_000_000_000;

/// A cube of edge `delta` at corner `start`, cut into `n_cell` cells per
/// axis.
#[derive(Clone, Copy, Debug, PartialEq, Eq, Structural)]
pub struct Grid {
    pub start: Point3,
    pub delta: i128,
    pub n_cell: u64,
}

/// Validity of a grid: positive edge length and cell count, within the
/// bounds that grid construction from valid points guarantees.
pub open spec fn grid_wf(g: Grid) -> bool {
    &&& -GRID_START_LIM <= g.start.x <= GRID_START_LIM
    &&& -GRID_START_LIM <= g.start.y <= GRID_START_LIM
    &&& -GRID_START_LIM <= g.start.z <= GRID_START_LIM
    &&& 1 <= g.delta <= GRID_DELTA_LIM
    &&& 1 <= g.n_cell <= MAX_N_CELL
}

/// The grid spanning the box from `min` to `max`: the box is padded by one
/// percent, centered, and covered by a single cell. A degenerate box (all
/// extents zero) still yields the smallest representable positive edge.
pub open spec fn spec_grid_from_box(min: Point3, max: Point3) -> Grid {
    let vx = max.x - min.x;
    let vy = max.y - min.y;
    let vz = max.z - min.z;
    let extent = fx::spec_fmax(fx::spec_fmax(vx, vy), vz);
    let delta = fx::spec_fmax(extent + fx::tdiv(extent, 100), 1);
    Grid {
        start: Point3 {
            x: (min.x + fx::tdiv(vx, 2) - fx::tdiv(delta, 2)) as i128,
            y: (min.y + fx::tdiv(vy, 2) - fx::tdiv(delta, 2)) as i128,
            z: (min.z + fx::tdiv(vz, 2) - fx::tdiv(delta, 2)) as i128,
        },
        delta: delta as i128,
        n_cell: 1,
    }
}

/// The bounding box of the vorton positions, folded in sequence order;
/// `None` for an empty sequence.
pub open spec fn spec_bbox(vs: Seq<Vorton>) -> Option<(Point3, Point3)>
    decreases vs.len(),
{
    if vs.len() == 0 {
        None
    } else {
        match spec_bbox(vs.drop_last()) {
            None => Some((vs.last().position, vs.last().position)),
            Some((mn, mx)) => Some(
                (spec_pmin(mn, vs.last().position), spec_pmax(mx, vs.last().position)),
            ),
        }
    }
}

/// The grid fitted around a vorton set: its padded bounding box, or the
/// unit box at the origin when the set is empty.
pub open spec fn spec_grid_from_vortons(vs: Seq<Vorton>) -> Grid {
    match spec_bbox(vs) {
        None => spec_grid_from_box(
            Point3 { x: 0, y: 0, z: 0 },
            Point3 { x: fx::SCALE, y: fx::SCALE, z: fx::SCALE },
        ),
        Some((mn, mx)) => spec_grid_from_box(mn, mx),
    }
}

/// The grid refined by one level: cell count doubled, same cube.
pub open spec fn spec_refine(g: Grid) -> Grid {
    Grid { start: g.start, delta: g.delta, n_cell: (g.n_cell * 2) as u64 }
}

/// The cell of point `p`, or `None` when `p` lies outside the cube. On the
/// far boundary of the cube the per-axis index reaches `n_cell`, one past
/// the last cell, as the clamp in the executable code allows.
pub open spec fn spec_cell_ijk(g: Grid, p: Point3) -> Option<(u64, u64, u64)> {
    let dx = p.x - g.start.x;
    let dy = p.y - g.start.y;
    let dz = p.z - g.start.z;
    if dx < 0 || dx > g.delta {
        None
    } else if dy < 0 || dy > g.delta {
        None
    } else if dz < 0 || dz > g.delta {
        None
    } else {
        Some(
            (
                fx::spec_fmin(fx::tdiv(dx * g.n_cell, g.delta as int), g.n_cell as int) as u64,
                fx::spec_fmin(fx::tdiv(dy * g.n_cell, g.delta as int), g.n_cell as int) as u64,
                fx::spec_fmin(fx::tdiv(dz * g.n_cell, g.delta as int), g.n_cell as int) as u64,
            ),
        )
    }
}

/// The center of cell `(i, j, k)`.
pub open spec fn spec_cell_center(g: Grid, i: int, j: int, k: int) -> Point3 {
    Point3 {
        x: (g.start.x + fx::tdiv((2 * i + 1) * g.delta, 2 * g.n_cell)) as i128,
        y: (g.start.y + fx::tdiv((2 * j + 1) * g.delta, 2 * g.n_cell)) as i128,
        z: (g.start.z + fx::tdiv((2 * k + 1) * g.delta, 2 * g.n_cell)) as i128,
    }
}

/// The edge length of one cell.
pub open spec fn spec_cell_length(g: Grid) -> int {
    fx::tdiv(g.delta as int, g.n_cell as int)
}

/// An in-cube offset: `0 <= ((2i + 1) * delta) / (2n) <= delta` whenever
/// `0 <= i < n`.
proof fn lemma_center_offset_in_range(i: int, delta: int, n: int)
    requires
        0 <= i < n,
        1 <= delta,
        1 <= n,
    ensures
        0 <= fx::tdiv((2 * i + 1) * delta, 2 * n) <= delta,
{
    lemma_mul_nonnegative(2 * i + 1, delta);
    lemma_mul_inequality(2 * i + 1, 2 * n, delta);
    lemma_div_pos_is_pos((2 * i + 1) * delta, 2 * n);
    lemma_div_is_ordered((2 * i + 1) * delta, (2 * n) * delta, 2 * n);
    lemma_div_multiples_vanish(delta, 2 * n);
}

impl Grid {
    /// The grid spanning the box from `min` to `max`, padded by one percent
    /// and centered.
    pub fn from_box(min: &Point3, max: &Point3) -> (r: Grid)
        requires
            point_wf(*min),
            point_wf(*max),
        ensures
            r == spec_grid_from_box(*min, *max),
            grid_wf(r),
    {
        let vx: i128 = max.x - min.x;
        let vy: i128 = max.y - min.y;
        let vz: i128 = max.z - min.z;
        let extent: i128 = fx::fmax(fx::fmax(vx, vy), vz);
        let delta: i128 = fx::fmax(extent + fx::tdiv_x(extent, 100), 1);
        proof {
            fx::lemma_tdiv_bounds(extent as int, 100);
            fx::lemma_tdiv_bounds(vx as int, 2);
            fx::lemma_tdiv_bounds(vy as int, 2);
            fx::lemma_tdiv_bounds(vz as int, 2);
            fx::lemma_tdiv_bounds(delta as int, 2);
        }
        Grid {
            start: Point3 {
                x: min.x + fx::tdiv_x(vx, 2) - fx::tdiv_x(delta, 2),
                y: min.y + fx::tdiv_x(vy, 2) - fx::tdiv_x(delta, 2),
                z: min.z + fx::tdiv_x(vz, 2) - fx::tdiv_x(delta, 2),
            },
            delta,
            n_cell: 1,
        }
    }

    /// The grid fitted around a vorton set (the unit box at the origin for
    /// an empty set).
    pub fn from_vortons(vortons: &Vec<Vorton>) -> (r: Grid)
        requires
            vortons_wf(vortons@),
        ensures
            r == spec_grid_from_vortons(vortons@),
            grid_wf(r),
    {
        let mut bbox: Option<(Point3, Point3)> = None;
        let mut idx: usize = 0;
        while idx < vortons.len()
            invariant
                0 <= idx <= vortons.len(),
                vortons_wf(vortons@),
                bbox == spec_bbox(vortons@.subrange(0, idx as int)),
                match bbox {
                    None => idx == 0,
                    Some((mn, mx)) => point_wf(mn) && point_wf(mx),
                },
            decreases vortons.len() - idx,
        {
            proof {
                assert(vortons@.subrange(0, idx + 1).drop_last() =~= vortons@.subrange(
                    0,
                    idx as int,
                ));
                assert(vortons@.subrange(0, idx + 1).last() == vortons@[idx as int]);
            }
            let p = &vortons[idx].position;
            bbox = match bbox {
                None => Some((*p, *p)),
                Some((mn, mx)) => Some((mn.min(p), mx.max(p))),
            };
            idx = idx + 1;
        }
        proof {
            assert(vortons@.subrange(0, vortons@.len() as int) =~= vortons@);
        }
        match bbox {
            None => Grid::from_box(&Point3::origin(), &Point3::new(fx::SCALE, fx::SCALE,
                fx::SCALE)),
            Some((mn, mx)) => Grid::from_box(&mn, &mx),
        }
    }

    /// The grid refined by one level: same cube, cell count doubled.
    pub fn refine(&self) -> (r: Grid)
        requires
            grid_wf(*self),
            self.n_cell <= MAX_N_CELL / 2,
        ensures
            r == spec_refine(*self),
            grid_wf(r),
    {
        Grid { start: self.start, delta: self.delta, n_cell: self.n_cell * 2 }
    }

    /// The cell `(i, j, k)` holding point `p`, or `None` when `p` lies
    /// outside the cube. On the cube's far boundary the index reaches
    /// `n_cell`, one past the last cell.
    pub fn cell_ijk(&self, p: &Point3) -> (r: Option<(u64, u64, u64)>)
        requires
            grid_wf(*self),
            point_wf(*p),
        ensures
            r == spec_cell_ijk(*self, *p),
            r matches Some(c) ==> c.0 <= self.n_cell && c.1 <= self.n_cell && c.2 <= self.n_cell,
    {
        let dx: i128 = p.x - self.start.x;
        if dx < 0 || dx > self.delta {
            return None;
        }
        let dy: i128 = p.y - self.start.y;
        if dy < 0 || dy > self.delta {
            return None;
        }
        let dz: i128 = p.z - self.start.z;
        if dz < 0 || dz > self.delta {
            return None;
        }
        Some(
            (
                self.axis_cell(dx),
                self.axis_cell(dy),
                self.axis_cell(dz),
            ),
        )
    }

    /// The per-axis cell index of a point `d` units into the cube.
    fn axis_cell(&self, d: i128) -> (r: u64)
        requires
            grid_wf(*self),
            0 <= d <= self.delta,
        ensures
            r == fx::spec_fmin(fx::tdiv(d * self.n_cell, self.delta as int), self.n_cell as int),
            r <= self.n_cell,
    {
        proof {
            lemma_mul_nonnegative(d as int, self.n_cell as int);
            lemma_mul_inequality(d as int, self.delta as int, self.n_cell as int);
            fx::lemma_mul_abs_le(d as int, self.n_cell as int, GRID_DELTA_LIM as int,
                MAX_N_CELL as int);
            lemma_div_pos_is_pos(d * self.n_cell, self.delta as int);
            lemma_div_is_ordered(d * self.n_cell, self.delta * self.n_cell, self.delta as int);
            assert(self.delta * self.n_cell == (self.delta as int) * (self.n_cell as int));
            lemma_div_multiples_vanish(self.n_cell as int, self.delta as int);
        }
        let q: i128 = fx::tdiv_x(d * (self.n_cell as i128), self.delta);
        let m: i128 = fx::fmin(q, self.n_cell as i128);
        m as u64
    }

    /// The center of cell `(i, j, k)`.
    pub fn cell_center(&self, i: u64, j: u64, k: u64) -> (r: Point3)
        requires
            grid_wf(*self),
            i < self.n_cell,
            j < self.n_cell,
            k < self.n_cell,
        ensures
            r == spec_cell_center(*self, i as int, j as int, k as int),
            -HALF_LIM <= r.x <= HALF_LIM,
            -HALF_LIM <= r.y <= HALF_LIM,
            -HALF_LIM <= r.z <= HALF_LIM,
    {
        proof {
            lemma_center_offset_in_range(i as int, self.delta as int, self.n_cell as int);
            lemma_center_offset_in_range(j as int, self.delta as int, self.n_cell as int);
            lemma_center_offset_in_range(k as int, self.delta as int, self.n_cell as int);
            fx::lemma_mul_abs_le(2 * (i as int) + 1, self.delta as int, 2 * (MAX_N_CELL as int),
                GRID_DELTA_LIM as int);
            fx::lemma_mul_abs_le(2 * (j as int) + 1, self.delta as int, 2 * (MAX_N_CELL as int),
                GRID_DELTA_LIM as int);
            fx::lemma_mul_abs_le(2 * (k as int) + 1, self.delta as int, 2 * (MAX_N_CELL as int),
                GRID_DELTA_LIM as int);
        }
        Point3 {
            x: self.start.x + fx::tdiv_x((2 * (i as i128) + 1) * self.delta,
                2 * (self.n_cell as i128)),
            y: self.start.y + fx::tdiv_x((2 * (j as i128) + 1) * self.delta,
                2 * (self.n_cell as i128)),
            z: self.start.z + fx::tdiv_x((2 * (k as i128) + 1) * self.delta,
                2 * (self.n_cell as i128)),
        }
    }

    /// The edge length of one cell (cells are cubic, so the length is the
    /// same in every direction).
    pub fn cell_length(&self) -> (r: i128)
        requires
            grid_wf(*self),
        ensures
            r == spec_cell_length(*self),
            0 <= r <= GRID_DELTA_LIM,
    {
        proof {
            fx::lemma_tdiv_bounds(self.delta as int, self.n_cell as int);
        }
        fx::tdiv_x(self.delta, self.n_cell as i128)
    }
}

} // verus!
