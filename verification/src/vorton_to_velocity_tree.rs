//! Approximate hierarchical velocity evaluator.
//!
//! The evaluator builds a pyramid of grids over the vorton set: the finest
//! level buckets the raw vortons per cell, every coarser level aggregates
//! its cells' contents into a single `SuperVorton` per occupied cell. A
//! velocity query descends from the single root cell: a cell far enough
//! from the query point, outside whose aggregate core the point lies, and
//! whose worst-case contribution is below a tolerance, is evaluated as its
//! aggregate; otherwise its eight children are visited.

use vstd::prelude::*;
use vstd::arithmetic::power2::{pow2, lemma2_to64, lemma_pow2_strictly_increases, lemma_pow2_unfold};
use crate::error::VortexError;
use crate::fx;
use crate::fx::SCALE;
use crate::grid::{Grid, grid_wf, spec_grid_from_vortons, spec_refine, spec_cell_ijk,
    spec_cell_center, spec_cell_length};
use crate::point3::{Point3, point_wf, spec_psub};
use crate::super_vorton::{SuperVorton, sv_wf, spec_sv_fold, spec_sv_merge, vortons_wf};
use crate::vector3::{Vector3, vec_wf, spec_vadd, spec_vzero, spec_vnorm, spec_vnormalize,
    spec_vorthogonal, spec_vscale};
use crate::vorton::{Vorton, vorton_wf, spec_velocity_contribution, spec_ratio};
use crate::vorton_to_velocity_simple::{velocity_at, spec_velocity_sum, copy_vortons};

verus! {

/// Deepest supported hierarchy.
pub const TREE_MAX_LEVELS: usize = 20;

/// Largest acceptable worst-case contribution of an approximated cell (the
/// real value 0.05 in fixed-point units).
pub const TREE_TOLERANCE: i128 = 50_000_000;

/// What an occupied cell holds: the raw vortons at the finest level, an
/// aggregate everywhere else.
pub enum Info {
    SuperVorton(SuperVorton),
    Vortons(Vec<Vorton>),
}

/// An occupied cell `(i, j, k)` of one level and its contents.
pub struct CellEntry {
    pub i: u64,
    pub j: u64,
    pub k: u64,
    pub info: Info,
}

/// The mathematical value of a cell's contents.
pub enum InfoModel {
    Agg(SuperVorton),
    Leaf(Seq<Vorton>),
}

/// The mathematical value of an occupied cell.
pub struct CellEntryModel {
    pub i: u64,
    pub j: u64,
    pub k: u64,
    pub info: InfoModel,
}

impl View for Info {
    type V = InfoModel;

    open spec fn view(&self) -> InfoModel {
        match self {
            Info::SuperVorton(s) => InfoModel::Agg(*s),
            Info::Vortons(vs) => InfoModel::Leaf(vs@),
        }
    }
}

impl View for CellEntry {
    type V = CellEntryModel;

    open spec fn view(&self) -> CellEntryModel {
        CellEntryModel { i: self.i, j: self.j, k: self.k, info: self.info@ }
    }
}

/// The mathematical value of one level's cell list.
pub open spec fn ents_view(es: Seq<CellEntry>) -> Seq<CellEntryModel> {
    es.map_values(|e: CellEntry| e@)
}

/// The mathematical value of the whole pyramid, coarsest level first.
pub open spec fn pyramid_view(iv: Seq<Vec<CellEntry>>) -> Seq<Seq<CellEntryModel>> {
    iv.map_values(|level: Vec<CellEntry>| ents_view(level@))
}

/// Validity of a cell's contents.
pub open spec fn info_m_wf(m: InfoModel) -> bool {
    match m {
        InfoModel::Agg(s) => sv_wf(s),
        InfoModel::Leaf(vs) => vortons_wf(vs),
    }
}

/// Validity of one level's cell list.
pub open spec fn entries_m_wf(ms: Seq<CellEntryModel>) -> bool {
    forall|idx: int| 0 <= idx < ms.len() ==> info_m_wf(#[trigger] ms[idx].info)
}

/// Every cell of the level holds raw vortons.
pub open spec fn entries_all_leaf(ms: Seq<CellEntryModel>) -> bool {
    forall|idx: int| 0 <= idx < ms.len() ==> #[trigger] ms[idx].info is Leaf
}

/// Every cell of the level holds an aggregate.
pub open spec fn entries_all_agg(ms: Seq<CellEntryModel>) -> bool {
    forall|idx: int| 0 <= idx < ms.len() ==> #[trigger] ms[idx].info is Agg
}

/// Whether the cell has key `(i, j, k)`.
pub open spec fn key_match(m: CellEntryModel, i: int, j: int, k: int) -> bool {
    m.i == i && m.j == j && m.k == k
}

/// Position of the first cell with key `(i, j, k)`, `-1` when absent.
pub open spec fn spec_find_index(ms: Seq<CellEntryModel>, i: int, j: int, k: int) -> int
    decreases ms.len(),
{
    if ms.len() == 0 {
        -1
    } else if key_match(ms[0], i, j, k) {
        0
    } else {
        let r = spec_find_index(ms.skip(1), i, j, k);
        if r < 0 {
            -1
        } else {
            r + 1
        }
    }
}

/// The contents of cell `(i, j, k)`, `None` when the cell is empty.
pub open spec fn spec_lookup(ms: Seq<CellEntryModel>, i: int, j: int, k: int) -> Option<
    InfoModel,
> {
    let idx = spec_find_index(ms, i, j, k);
    if idx < 0 {
        None
    } else {
        Some(ms[idx].info)
    }
}

/// What `spec_find_index` finds is in range and carries the key.
pub proof fn lemma_find_index_props(ms: Seq<CellEntryModel>, i: int, j: int, k: int)
    ensures
        -1 <= spec_find_index(ms, i, j, k) < ms.len(),
        spec_find_index(ms, i, j, k) >= 0 ==> key_match(ms[spec_find_index(ms, i, j, k)], i, j, k),
    decreases ms.len(),
{
    if ms.len() == 0 {
    } else if key_match(ms[0], i, j, k) {
    } else {
        lemma_find_index_props(ms.skip(1), i, j, k);
        let r = spec_find_index(ms.skip(1), i, j, k);
        if r >= 0 {
            assert(ms.skip(1)[r] == ms[r + 1]);
        }
    }
}

/// A cell that matches at `n`, with no match before it, is the one found.
pub proof fn lemma_find_index_first(ms: Seq<CellEntryModel>, i: int, j: int, k: int, n: int)
    requires
        0 <= n < ms.len(),
        key_match(ms[n], i, j, k),
        forall|l: int| 0 <= l < n ==> !key_match(#[trigger] ms[l], i, j, k),
    ensures
        spec_find_index(ms, i, j, k) == n,
    decreases ms.len(),
{
    if n == 0 {
    } else {
        assert(!key_match(ms[0], i, j, k));
        assert(ms.skip(1)[n - 1] == ms[n]);
        assert forall|l: int| 0 <= l < n - 1 implies !key_match(
            #[trigger] ms.skip(1)[l],
            i,
            j,
            k,
        ) by {
            assert(ms.skip(1)[l] == ms[l + 1]);
        }
        lemma_find_index_first(ms.skip(1), i, j, k, n - 1);
    }
}

/// With no match anywhere, nothing is found.
pub proof fn lemma_find_index_none(ms: Seq<CellEntryModel>, i: int, j: int, k: int)
    requires
        forall|l: int| 0 <= l < ms.len() ==> !key_match(#[trigger] ms[l], i, j, k),
    ensures
        spec_find_index(ms, i, j, k) == -1,
    decreases ms.len(),
{
    if ms.len() == 0 {
    } else {
        assert(!key_match(ms[0], i, j, k));
        assert forall|l: int| 0 <= l < ms.skip(1).len() implies !key_match(
            #[trigger] ms.skip(1)[l],
            i,
            j,
            k,
        ) by {
            assert(ms.skip(1)[l] == ms[l + 1]);
        }
        lemma_find_index_none(ms.skip(1), i, j, k);
    }
}

/// A leaf cell grown by one vorton; an aggregate cell is left as it is.
pub open spec fn spec_updated_leaf(m: InfoModel, v: Vorton) -> InfoModel {
    match m {
        InfoModel::Leaf(vs) => InfoModel::Leaf(vs.push(v)),
        InfoModel::Agg(s) => InfoModel::Agg(s),
    }
}

/// One vorton dropped into its cell: pushed onto the existing cell's list,
/// or opening a new cell at the end of the level.
pub open spec fn spec_bucket_insert(
    ms: Seq<CellEntryModel>,
    key: (u64, u64, u64),
    v: Vorton,
) -> Seq<CellEntryModel> {
    let idx = spec_find_index(ms, key.0 as int, key.1 as int, key.2 as int);
    if idx < 0 {
        ms.push(CellEntryModel { i: key.0, j: key.1, k: key.2, info: InfoModel::Leaf(seq![v]) })
    } else {
        ms.update(
            idx,
            CellEntryModel {
                i: key.0,
                j: key.1,
                k: key.2,
                info: spec_updated_leaf(ms[idx].info, v),
            },
        )
    }
}

/// The finest level: every vorton dropped into its cell in sequence order.
/// A vorton outside the grid cube has no cell and is left out.
pub open spec fn spec_bucket(vs: Seq<Vorton>, g: Grid) -> Seq<CellEntryModel>
    decreases vs.len(),
{
    if vs.len() == 0 {
        Seq::empty()
    } else {
        let prev = spec_bucket(vs.drop_last(), g);
        match spec_cell_ijk(g, vs.last().position) {
            None => prev,
            Some(key) => spec_bucket_insert(prev, key, vs.last()),
        }
    }
}

/// A cell's contents as a single aggregate.
pub open spec fn spec_info_to_sv(m: InfoModel) -> SuperVorton {
    match m {
        InfoModel::Agg(s) => s,
        InfoModel::Leaf(vs) => spec_sv_fold(vs),
    }
}

/// One child cell folded into the next coarser level: its aggregate is
/// merged into the cell at half its key, or opens that cell.
pub open spec fn spec_coarsen_step(
    ms: Seq<CellEntryModel>,
    child: CellEntryModel,
) -> Seq<CellEntryModel> {
    let pi = child.i / 2;
    let pj = child.j / 2;
    let pk = child.k / 2;
    let sv = spec_info_to_sv(child.info);
    let idx = spec_find_index(ms, pi as int, pj as int, pk as int);
    if idx < 0 {
        ms.push(CellEntryModel { i: pi, j: pj, k: pk, info: InfoModel::Agg(sv) })
    } else {
        match ms[idx].info {
            InfoModel::Agg(s0) => ms.update(
                idx,
                CellEntryModel { i: pi, j: pj, k: pk, info: InfoModel::Agg(spec_sv_merge(s0, sv)) },
            ),
            InfoModel::Leaf(_) => ms,
        }
    }
}

/// The next coarser level: every child cell folded in, in level order.
pub open spec fn spec_coarsen(children: Seq<CellEntryModel>) -> Seq<CellEntryModel>
    decreases children.len(),
{
    if children.len() == 0 {
        Seq::empty()
    } else {
        spec_coarsen_step(spec_coarsen(children.drop_last()), children.last())
    }
}

/// `m` applications of `spec_coarsen`.
pub open spec fn spec_coarsen_n(ms: Seq<CellEntryModel>, m: nat) -> Seq<CellEntryModel>
    decreases m,
{
    if m == 0 {
        ms
    } else {
        spec_coarsen(spec_coarsen_n(ms, (m - 1) as nat))
    }
}

/// The grid of level `l`: the grid fitted around the vortons, refined `l`
/// times.
pub open spec fn spec_grid_at(vs: Seq<Vorton>, l: int) -> Grid
    decreases l,
{
    if l <= 0 {
        spec_grid_from_vortons(vs)
    } else {
        spec_refine(spec_grid_at(vs, l - 1))
    }
}

/// The chain of `n` grids over the vortons, coarsest first.
pub open spec fn spec_grid_chain(vs: Seq<Vorton>, n: int) -> Seq<Grid> {
    Seq::new(n as nat, |l: int| spec_grid_at(vs, l))
}

/// The velocity the `n`-level hierarchy over snapshot `vs` yields at `p`.
pub open spec fn spec_tree_velocity(vs: Seq<Vorton>, n: int, p: Point3) -> Vector3 {
    spec_traverse(spec_grid_chain(vs, n), spec_pyramid(vs, n), p, 0, 0, 0, 0)
}

/// The pyramid of `n` levels over the vortons, coarsest level first: level
/// `l` is the finest level's bucketing coarsened `n - 1 - l` times.
pub open spec fn spec_pyramid(vs: Seq<Vorton>, n: int) -> Seq<Seq<CellEntryModel>> {
    Seq::new(n as nat, |l: int| spec_coarsen_n(spec_bucket(vs, spec_grid_at(vs, n - 1)),
        (n - 1 - l) as nat))
}

/// The acceptance test for approximating a cell by its aggregate `sv`: the
/// query point is farther from the cell center than 0.7 * 1.7 times the
/// cell edge, lies outside the aggregate's core, and a worst-case vorton at
/// the aggregate's position (vorticity orthogonal to the separation, as
/// strong as the strongest member) would contribute less than the
/// tolerance.
pub open spec fn spec_accept(g: Grid, sv: SuperVorton, p: Point3, i: int, j: int, k: int) -> bool {
    let far = spec_vnorm(spec_psub(p, spec_cell_center(g, i, j, k))) > fx::tdiv(
        spec_cell_length(g) * 119,
        100,
    );
    let outside = !(spec_ratio(spec_psub(p, sv.vorton.position), sv.vorton.volume as int) <= 8
        * SCALE);
    let hyp = Vorton {
        volume: sv.vorton.volume,
        position: sv.vorton.position,
        vorticity: spec_vscale(
            spec_vnormalize(spec_vorthogonal(spec_psub(p, sv.vorton.position))),
            sv.max_vorticity as int,
        ),
    };
    let vc = spec_vnorm(spec_velocity_contribution(hyp, p));
    far && outside && vc < TREE_TOLERANCE
}

/// The velocity that the recursive descent yields for cell `(i, j, k)` of
/// `level`: zero for an empty cell, the exact sum for a leaf cell, the
/// aggregate's contribution for a single-member or accepted cell, and the
/// sum over the eight children otherwise.
pub open spec fn spec_traverse(
    grids: Seq<Grid>,
    infos: Seq<Seq<CellEntryModel>>,
    p: Point3,
    level: int,
    i: int,
    j: int,
    k: int,
) -> Vector3
    decreases infos.len() - level,
{
    if level < 0 || level >= infos.len() {
        spec_vzero()
    } else {
        match spec_lookup(infos[level], i, j, k) {
            None => spec_vzero(),
            Some(InfoModel::Leaf(vs)) => spec_velocity_sum(vs, spec_vzero(), p),
            Some(InfoModel::Agg(sv)) => {
                if sv.n_vortons == 1 {
                    spec_velocity_contribution(sv.vorton, p)
                } else if spec_accept(grids[level], sv, p, i, j, k) {
                    spec_velocity_contribution(sv.vorton, p)
                } else {
                    spec_vadd(
                        spec_vadd(
                            spec_vadd(
                                spec_vadd(
                                    spec_vadd(
                                        spec_vadd(
                                            spec_vadd(
                                                spec_traverse(grids, infos, p, level + 1, 2 * i,
                                                    2 * j, 2 * k),
                                                spec_traverse(grids, infos, p, level + 1, 2 * i
                                                    + 1, 2 * j, 2 * k),
                                            ),
                                            spec_traverse(grids, infos, p, level + 1, 2 * i, 2 * j
                                                + 1, 2 * k),
                                        ),
                                        spec_traverse(grids, infos, p, level + 1, 2 * i + 1, 2 * j
                                            + 1, 2 * k),
                                    ),
                                    spec_traverse(grids, infos, p, level + 1, 2 * i, 2 * j, 2 * k
                                        + 1),
                                ),
                                spec_traverse(grids, infos, p, level + 1, 2 * i + 1, 2 * j, 2 * k
                                    + 1),
                            ),
                            spec_traverse(grids, infos, p, level + 1, 2 * i, 2 * j + 1, 2 * k + 1),
                        ),
                        spec_traverse(grids, infos, p, level + 1, 2 * i + 1, 2 * j + 1, 2 * k + 1),
                    )
                }
            },
        }
    }
}

/// Approximate hierarchical evaluator over a frozen vorton snapshot.
pub struct VortonToVelocityTree {
    pub vortons: Vec<Vorton>,
    pub n_grids: usize,
    pub grids: Vec<Grid>,
    pub infos: Vec<Vec<CellEntry>>,
}

/// Validity of a built evaluator: one grid and one cell list per level,
/// grids doubling from a single root cell, aggregates everywhere except the
/// finest level, which holds the raw vortons.
pub open spec fn tree_wf(t: VortonToVelocityTree) -> bool {
    let pv = pyramid_view(t.infos@);
    &&& 1 <= t.n_grids <= TREE_MAX_LEVELS
    &&& t.grids@.len() == t.n_grids
    &&& t.infos@.len() == t.n_grids
    &&& vortons_wf(t.vortons@)
    &&& forall|l: int| 0 <= l < t.n_grids ==> grid_wf(#[trigger] t.grids@[l])
    &&& forall|l: int| 0 <= l < t.n_grids ==> (#[trigger] t.grids@[l].n_cell) == pow2(l as nat)
    &&& forall|l: int| 0 <= l < t.n_grids ==> entries_m_wf(#[trigger] pv[l])
    &&& forall|l: int| 0 <= l < t.n_grids - 1 ==> entries_all_agg(#[trigger] pv[l])
    &&& entries_all_leaf(pv[t.n_grids - 1])
}

/// Position of the first cell with key `(i, j, k)` in `entries`, or
/// `entries.len()` when the cell is absent.
fn find_entry(entries: &Vec<CellEntry>, i: u64, j: u64, k: u64) -> (r: usize)
    ensures
        ({
            let idx = spec_find_index(ents_view(entries@), i as int, j as int, k as int);
            &&& r <= entries@.len()
            &&& (idx < 0 <==> r == entries@.len())
            &&& (idx >= 0 ==> r == idx)
        }),
{
    let ghost ms = ents_view(entries@);
    let mut n: usize = 0;
    while n < entries.len()
        invariant
            0 <= n <= entries@.len(),
            ms == ents_view(entries@),
            ms.len() == entries@.len(),
            forall|l: int| 0 <= l < n ==> !key_match(#[trigger] ms[l], i as int, j as int, k as int),
        decreases entries.len() - n,
    {
        let e = &entries[n];
        if e.i == i && e.j == j && e.k == k {
            proof {
                assert(key_match(ms[n as int], i as int, j as int, k as int));
                lemma_find_index_first(ms, i as int, j as int, k as int, n as int);
            }
            return n;
        }
        proof {
            assert(!key_match(ms[n as int], i as int, j as int, k as int));
        }
        n = n + 1;
    }
    proof {
        lemma_find_index_none(ms, i as int, j as int, k as int);
    }
    n
}

/// A cell's contents as a single aggregate: a leaf's vortons are folded in
/// list order, an aggregate stands as it is.
fn info_to_sv(info: &Info) -> (r: SuperVorton)
    requires
        info_m_wf(info@),
    ensures
        r == spec_info_to_sv(info@),
        sv_wf(r),
{
    match info {
        Info::SuperVorton(s) => *s,
        Info::Vortons(vs) => SuperVorton::from_vortons(vs),
    }
}

/// The finest level: every vorton dropped into its cell, in list order.
fn make_leaf_entries(vortons: &Vec<Vorton>, grid: &Grid) -> (r: Vec<CellEntry>)
    requires
        vortons_wf(vortons@),
        grid_wf(*grid),
    ensures
        ents_view(r@) == spec_bucket(vortons@, *grid),
        entries_m_wf(ents_view(r@)),
        entries_all_leaf(ents_view(r@)),
{
    let mut entries: Vec<CellEntry> = Vec::new();
    let mut idx: usize = 0;
    while idx < vortons.len()
        invariant
            0 <= idx <= vortons.len(),
            vortons_wf(vortons@),
            grid_wf(*grid),
            ents_view(entries@) == spec_bucket(vortons@.subrange(0, idx as int), *grid),
            entries_m_wf(ents_view(entries@)),
            entries_all_leaf(ents_view(entries@)),
        decreases vortons.len() - idx,
    {
        proof {
            assert(vortons@.subrange(0, idx + 1).drop_last() =~= vortons@.subrange(0, idx as int));
            assert(vortons@.subrange(0, idx + 1).last() == vortons@[idx as int]);
        }
        let v = &vortons[idx];
        match grid.cell_ijk(&v.position) {
            None => {},
            Some(key) => {
                let ghost ms = ents_view(entries@);
                proof {
                    lemma_find_index_props(ms, key.0 as int, key.1 as int, key.2 as int);
                }
                let pos = find_entry(&entries, key.0, key.1, key.2);
                if pos < entries.len() {
                    let new_info: Info = match &entries[pos].info {
                        Info::Vortons(vs) => {
                            let mut nv = copy_vortons(vs);
                            nv.push(*v);
                            Info::Vortons(nv)
                        },
                        Info::SuperVorton(s) => Info::SuperVorton(*s),
                    };
                    let e = CellEntry { i: key.0, j: key.1, k: key.2, info: new_info };
                    entries[pos] = e;
                    proof {
                        assert(ents_view(entries@) =~= spec_bucket_insert(ms, key,
                            vortons@[idx as int]));
                    }
                } else {
                    let mut single: Vec<Vorton> = Vec::new();
                    single.push(*v);
                    entries.push(
                        CellEntry { i: key.0, j: key.1, k: key.2, info: Info::Vortons(single) },
                    );
                    proof {
                        assert(ents_view(entries@) =~= spec_bucket_insert(ms, key,
                            vortons@[idx as int]));
                    }
                }
            },
        }
        idx = idx + 1;
    }
    proof {
        assert(vortons@.subrange(0, vortons@.len() as int) =~= vortons@);
    }
    entries
}

/// The next coarser level: every child cell folded into the cell at half
/// its key, in level order.
fn coarsen(children: &Vec<CellEntry>) -> (r: Vec<CellEntry>)
    requires
        entries_m_wf(ents_view(children@)),
    ensures
        ents_view(r@) == spec_coarsen(ents_view(children@)),
        entries_m_wf(ents_view(r@)),
        entries_all_agg(ents_view(r@)),
{
    let ghost cms = ents_view(children@);
    let mut out: Vec<CellEntry> = Vec::new();
    let mut idx: usize = 0;
    while idx < children.len()
        invariant
            0 <= idx <= children.len(),
            cms == ents_view(children@),
            cms.len() == children@.len(),
            entries_m_wf(cms),
            ents_view(out@) == spec_coarsen(cms.subrange(0, idx as int)),
            entries_m_wf(ents_view(out@)),
            entries_all_agg(ents_view(out@)),
        decreases children.len() - idx,
    {
        proof {
            assert(cms.subrange(0, idx + 1).drop_last() =~= cms.subrange(0, idx as int));
            assert(cms.subrange(0, idx + 1).last() == cms[idx as int]);
            assert(info_m_wf(cms[idx as int].info));
        }
        let child = &children[idx];
        let pi: u64 = child.i / 2;
        let pj: u64 = child.j / 2;
        let pk: u64 = child.k / 2;
        let sv = info_to_sv(&child.info);
        let ghost ms = ents_view(out@);
        proof {
            lemma_find_index_props(ms, pi as int, pj as int, pk as int);
        }
        let pos = find_entry(&out, pi, pj, pk);
        if pos < out.len() {
            proof {
                assert(ents_view(out@)[pos as int] == out@[pos as int]@);
                assert(info_m_wf(ms[pos as int].info));
            }
            match &out[pos].info {
                Info::SuperVorton(s0) => {
                    let merged = s0.merge(&sv);
                    let e = CellEntry { i: pi, j: pj, k: pk, info: Info::SuperVorton(merged) };
                    out[pos] = e;
                },
                Info::Vortons(_) => {},
            };
            proof {
                assert(ents_view(out@) =~= spec_coarsen_step(ms, cms[idx as int]));
            }
        } else {
            out.push(CellEntry { i: pi, j: pj, k: pk, info: Info::SuperVorton(sv) });
            proof {
                assert(ents_view(out@) =~= spec_coarsen_step(ms, cms[idx as int]));
            }
        }
        idx = idx + 1;
    }
    proof {
        assert(cms.subrange(0, cms.len() as int) =~= cms);
    }
    out
}

impl VortonToVelocityTree {
    /// A hierarchical evaluator of `n_grids` levels over a copy of
    /// `vortons`. Fails when the level count is zero or beyond the
    /// supported depth; otherwise builds the grid chain and the cell-info
    /// pyramid for the snapshot.
    pub fn new(vortons: &Vec<Vorton>, n_grids: usize) -> (r: Result<
        VortonToVelocityTree,
        VortexError,
    >)
        requires
            vortons_wf(vortons@),
        ensures
            (n_grids == 0 || n_grids > TREE_MAX_LEVELS) <==> r is Err,
            r is Err ==> r == Err::<VortonToVelocityTree, VortexError>(
                VortexError::InvalidLevelCount,
            ),
            r matches Ok(t) ==> {
                &&& tree_wf(t)
                &&& t.vortons@ == vortons@
                &&& t.n_grids == n_grids
                &&& t.grids@ == spec_grid_chain(vortons@, n_grids as int)
                &&& pyramid_view(t.infos@) == spec_pyramid(vortons@, n_grids as int)
            },
    {
        if n_grids == 0 || n_grids > TREE_MAX_LEVELS {
            return Err(VortexError::InvalidLevelCount);
        }
        let mut grids: Vec<Grid> = Vec::new();
        grids.push(Grid::from_vortons(vortons));
        proof {
            lemma2_to64();
        }
        while grids.len() < n_grids
            invariant
                1 <= grids@.len() <= n_grids,
                1 <= n_grids <= TREE_MAX_LEVELS,
                vortons_wf(vortons@),
                forall|l: int|
                    0 <= l < grids@.len() ==> #[trigger] grids@[l] == spec_grid_at(vortons@, l),
                forall|l: int| 0 <= l < grids@.len() ==> grid_wf(#[trigger] grids@[l]),
                forall|l: int|
                    0 <= l < grids@.len() ==> (#[trigger] grids@[l].n_cell) == pow2(l as nat),
            decreases n_grids - grids.len(),
        {
            let m = grids.len();
            let last = grids[m - 1];
            proof {
                lemma2_to64();
                if m - 1 < 19 {
                    lemma_pow2_strictly_increases((m - 1) as nat, 19);
                }
                assert(last.n_cell <= 524288);
                lemma_pow2_unfold(m as nat);
            }
            let g = last.refine();
            grids.push(g);
        }
        let leaf = make_leaf_entries(vortons, &grids[n_grids - 1]);
        let mut infos: Vec<Vec<CellEntry>> = Vec::new();
        infos.push(leaf);
        proof {
            assert(pyramid_view(infos@).len() == 1);
            assert(pyramid_view(infos@)[0] == spec_coarsen_n(spec_bucket(vortons@,
                spec_grid_at(vortons@, n_grids - 1)), 0));
        }
        while infos.len() < n_grids
            invariant
                1 <= infos@.len() <= n_grids,
                1 <= n_grids <= TREE_MAX_LEVELS,
                vortons_wf(vortons@),
                forall|l: int|
                    0 <= l < infos@.len() ==> #[trigger] pyramid_view(infos@)[l]
                        == spec_coarsen_n(spec_bucket(vortons@, spec_grid_at(vortons@, n_grids
                        - 1)), (infos@.len() - 1 - l) as nat),
                forall|l: int|
                    0 <= l < infos@.len() ==> entries_m_wf(#[trigger] pyramid_view(infos@)[l]),
                forall|l: int|
                    0 <= l < infos@.len() - 1 ==> entries_all_agg(
                        #[trigger] pyramid_view(infos@)[l],
                    ),
                entries_all_leaf(pyramid_view(infos@)[infos@.len() - 1]),
            decreases n_grids - infos.len(),
        {
            let ghost old_infos = infos@;
            proof {
                assert(pyramid_view(infos@)[0] == ents_view(infos@[0]@));
            }
            let coarser = coarsen(&infos[0]);
            infos.insert(0, coarser);
            proof {
                old_infos.insert_ensures(0, coarser);
                assert(infos@ == old_infos.insert(0, coarser));
                assert forall|l: int| 0 <= l < infos@.len() implies #[trigger] pyramid_view(
                    infos@,
                )[l] == spec_coarsen_n(spec_bucket(vortons@, spec_grid_at(vortons@, n_grids - 1)),
                    (infos@.len() - 1 - l) as nat) by {
                    assert(pyramid_view(infos@)[l] == ents_view(infos@[l]@));
                    if l == 0 {
                        assert(infos@[0] == coarser);
                        assert(pyramid_view(old_infos)[0] == ents_view(old_infos[0]@));
                    } else {
                        assert(infos@[l] == old_infos[l - 1]);
                        assert(pyramid_view(old_infos)[l - 1] == ents_view(old_infos[l - 1]@));
                    }
                }
                assert forall|l: int| 0 <= l < infos@.len() implies entries_m_wf(
                    #[trigger] pyramid_view(infos@)[l],
                ) by {
                    assert(pyramid_view(infos@)[l] == ents_view(infos@[l]@));
                    if l > 0 {
                        assert(infos@[l] == old_infos[l - 1]);
                        assert(pyramid_view(old_infos)[l - 1] == ents_view(old_infos[l - 1]@));
                    }
                }
                assert forall|l: int| 0 <= l < infos@.len() - 1 implies entries_all_agg(
                    #[trigger] pyramid_view(infos@)[l],
                ) by {
                    assert(pyramid_view(infos@)[l] == ents_view(infos@[l]@));
                    if l > 0 {
                        assert(infos@[l] == old_infos[l - 1]);
                        assert(pyramid_view(old_infos)[l - 1] == ents_view(old_infos[l - 1]@));
                    }
                }
                assert(infos@[infos@.len() - 1] == old_infos[old_infos.len() - 1]);
                assert(pyramid_view(infos@)[infos@.len() - 1] == ents_view(
                    infos@[infos@.len() - 1]@,
                ));
                assert(pyramid_view(old_infos)[old_infos.len() - 1] == ents_view(
                    old_infos[old_infos.len() - 1]@,
                ));
            }
        }
        proof {
            assert(grids@ =~= spec_grid_chain(vortons@, n_grids as int));
            assert(pyramid_view(infos@) =~= spec_pyramid(vortons@, n_grids as int));
        }
        Ok(
            VortonToVelocityTree {
                vortons: copy_vortons(vortons),
                n_grids,
                grids,
                infos,
            },
        )
    }

    /// The acceptance test for approximating cell `(i, j, k)` by its
    /// aggregate `sv` when queried at `position`.
    fn accept(&self, sv: &SuperVorton, position: &Point3, level: usize, i: u64, j: u64, k: u64)
        -> (r: bool)
        requires
            tree_wf(*self),
            sv_wf(*sv),
            point_wf(*position),
            level < self.grids@.len(),
            i < self.grids@[level as int].n_cell,
            j < self.grids@[level as int].n_cell,
            k < self.grids@[level as int].n_cell,
        ensures
            r == spec_accept(self.grids@[level as int], *sv, *position, i as int, j as int,
                k as int),
    {
        let grid = &self.grids[level];
        let center = grid.cell_center(i, j, k);
        let far = position.sub(&center).norm() > fx::tdiv_x(grid.cell_length() * 119, 100);
        let outside = !sv.vorton.is_inside(position);
        let sep = position.sub(&sv.vorton.position);
        let hyp = Vorton::new(
            sv.vorton.position,
            sep.orthogonal().normalize().scale(sv.max_vorticity),
            sv.vorton.volume,
        );
        let vc = hyp.velocity_contribution(position).norm();
        far && outside && vc < TREE_TOLERANCE
    }

    /// The recursive descent for cell `(i, j, k)` of `level`.
    fn traverse(&self, position: &Point3, level: usize, i: u64, j: u64, k: u64) -> (r: Vector3)
        requires
            tree_wf(*self),
            point_wf(*position),
            level < self.grids@.len(),
            i < self.grids@[level as int].n_cell,
            j < self.grids@[level as int].n_cell,
            k < self.grids@[level as int].n_cell,
        ensures
            r == spec_traverse(self.grids@, pyramid_view(self.infos@), *position, level as int,
                i as int, j as int, k as int),
            vec_wf(r),
        decreases self.grids@.len() - level,
    {
        let entries = &self.infos[level];
        let ghost pv = pyramid_view(self.infos@);
        let ghost ms = ents_view(entries@);
        proof {
            assert(pv[level as int] == ms);
            lemma_find_index_props(ms, i as int, j as int, k as int);
        }
        let pos = find_entry(entries, i, j, k);
        if pos == entries.len() {
            return Vector3::zero();
        }
        proof {
            assert(info_m_wf(ms[pos as int].info));
        }
        match &entries[pos].info {
            Info::Vortons(vs) => velocity_at(vs, &Vector3::zero(), position),
            Info::SuperVorton(sv) => {
                if sv.n_vortons() == 1 {
                    sv.vorton().velocity_contribution(position)
                } else if self.accept(sv, position, level, i, j, k) {
                    sv.vorton().velocity_contribution(position)
                } else {
                    proof {
                        assert(ms[pos as int].info is Agg);
                        if level == self.n_grids - 1 {
                            assert(entries_all_leaf(pv[level as int]));
                            assert(false);
                        }
                        lemma_pow2_unfold((level + 1) as nat);
                    }
                    let s0 = self.traverse(position, level + 1, 2 * i, 2 * j, 2 * k);
                    let s1 = self.traverse(position, level + 1, 2 * i + 1, 2 * j, 2 * k);
                    let s2 = self.traverse(position, level + 1, 2 * i, 2 * j + 1, 2 * k);
                    let s3 = self.traverse(position, level + 1, 2 * i + 1, 2 * j + 1, 2 * k);
                    let s4 = self.traverse(position, level + 1, 2 * i, 2 * j, 2 * k + 1);
                    let s5 = self.traverse(position, level + 1, 2 * i + 1, 2 * j, 2 * k + 1);
                    let s6 = self.traverse(position, level + 1, 2 * i, 2 * j + 1, 2 * k + 1);
                    let s7 = self.traverse(position, level + 1, 2 * i + 1, 2 * j + 1, 2 * k + 1);
                    s0.add(&s1).add(&s2).add(&s3).add(&s4).add(&s5).add(&s6).add(&s7)
                }
            },
        }
    }

    /// The velocity that the hierarchy induces at `position`: the descent
    /// from the single root cell. The defensive height check never fails on
    /// a tree this constructor built.
    pub fn velocity_at(&self, position: &Point3) -> (r: Result<Vector3, VortexError>)
        requires
            tree_wf(*self),
            point_wf(*position),
        ensures
            r matches Ok(v) && v == spec_traverse(self.grids@, pyramid_view(self.infos@),
                *position, 0, 0, 0, 0) && vec_wf(v),
    {
        if self.grids.len() != self.infos.len() {
            return Err(VortexError::InconsistentHierarchy);
        }
        proof {
            lemma2_to64();
        }
        Ok(self.traverse(position, 0, 0, 0, 0))
    }
}

} // verus!
