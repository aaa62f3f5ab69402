//! Sparse brick allocator.
//!
//! A logical grid is tiled into 8x8x8 bricks. A flat brick table maps
//! linearized brick coordinates to pool slots; `UNALLOCATED` marks a brick
//! with no storage. A LIFO free list hands out slots in O(1). The table is
//! mirrored on the GPU; a dirty flag says the mirror is stale.

use vstd::prelude::*;
use crate::grid::{grid_index, grid_index_spec, grid_size_fits, grid_coord_x, grid_coord_y, grid_coord_z};

verus! {

/// Table entry of a brick with no pool slot.
pub const UNALLOCATED: u32 = 0xffff_ffff;

/// Voxels per brick edge.
pub const BRICK_EDGE: u32 = 8;

/// Voxels per brick (8^3).
pub const BRICK_VOXELS: u32 = 512;

/// Upper bound on pool slots, keeping `slot * 512 + local` inside `u32`.
pub const MAX_BRICK_SLOTS: u32 = 0x0080_0000;

/// Upper bound on the brick grid edge.
pub const MAX_BRICK_GRID_DIM: u32 = 1024;

/// How many entries of a brick table are allocated.
pub open spec fn count_allocated(t: Seq<u32>) -> int
    decreases t.len(),
{
    if t.len() == 0 {
        0
    } else {
        count_allocated(t.drop_last()) + if t.last() != UNALLOCATED { 1int } else { 0int }
    }
}

/// The allocated-entry count lies between 0 and the table length.
pub proof fn lemma_count_allocated_bounds(t: Seq<u32>)
    ensures
        0 <= count_allocated(t) <= t.len(),
    decreases t.len(),
{
    if t.len() > 0 {
        lemma_count_allocated_bounds(t.drop_last());
    }
}

/// How one table update moves the allocated-entry count.
pub proof fn lemma_count_allocated_update(t: Seq<u32>, i: int, v: u32)
    requires
        0 <= i < t.len(),
    ensures
        count_allocated(t.update(i, v)) == count_allocated(t)
            - (if t[i] != UNALLOCATED { 1int } else { 0int })
            + (if v != UNALLOCATED { 1int } else { 0int }),
    decreases t.len(),
{
    let u = t.update(i, v);
    if i == t.len() - 1 {
        assert(u.drop_last() =~= t.drop_last());
    } else {
        assert(u.drop_last() =~= t.drop_last().update(i, v));
        lemma_count_allocated_update(t.drop_last(), i, v);
    }
}

/// An allocated entry makes the count positive.
pub proof fn lemma_count_allocated_positive(t: Seq<u32>, i: int)
    requires
        0 <= i < t.len(),
        t[i] != UNALLOCATED,
    ensures
        count_allocated(t) >= 1,
    decreases t.len(),
{
    if i == t.len() - 1 {
        lemma_count_allocated_bounds(t.drop_last());
    } else {
        lemma_count_allocated_positive(t.drop_last(), i);
    }
}

/// CPU-side brick allocation table for sparse grids.
pub struct SparseGrid {
    brick_table: Vec<u32>,
    free_list: Vec<u32>,
    brick_grid_dim: u32,
    max_bricks: u32,
    dirty: bool,
}

impl SparseGrid {
    /// The brick table: one entry per brick coordinate.
    pub closed spec fn table(self) -> Seq<u32> {
        self.brick_table@
    }

    /// The free pool slots, in pop order from the back.
    pub closed spec fn free(self) -> Seq<u32> {
        self.free_list@
    }

    /// Bricks per grid edge.
    pub closed spec fn dim(self) -> u32 {
        self.brick_grid_dim
    }

    /// Total pool slots.
    pub closed spec fn max(self) -> u32 {
        self.max_bricks
    }

    /// Whether the GPU mirror of the table is stale.
    pub closed spec fn spec_dirty(self) -> bool {
        self.dirty
    }

    /// Table entry of the brick at `(bx, by, bz)`.
    pub open spec fn entry(self, bx: int, by: int, bz: int) -> u32 {
        self.table()[grid_index_spec(bx, by, bz, self.dim() as int)]
    }

    /// Whether the brick at `(bx, by, bz)` has a pool slot.
    pub open spec fn spec_is_allocated(self, bx: int, by: int, bz: int) -> bool {
        self.entry(bx, by, bz) != UNALLOCATED
    }

    /// Allocator invariant: the table has one entry per brick; every free
    /// slot and every granted slot is in range; no slot is both free and
    /// granted, no slot is granted twice or free twice; and free plus
    /// granted slots account for the whole pool.
    pub closed spec fn wf(self) -> bool {
        &&& 1 <= self.brick_grid_dim <= MAX_BRICK_GRID_DIM
        &&& self.max_bricks < MAX_BRICK_SLOTS
        &&& self.brick_table@.len() == (self.brick_grid_dim as int)
            * (self.brick_grid_dim as int) * (self.brick_grid_dim as int)
        &&& (forall|i: int| 0 <= i < self.free_list@.len()
            ==> #[trigger] self.free_list@[i] < self.max_bricks)
        &&& self.free_list@.no_duplicates()
        &&& (forall|t: int| 0 <= t < self.brick_table@.len()
            && #[trigger] self.brick_table@[t] != UNALLOCATED
            ==> self.brick_table@[t] < self.max_bricks
                && !self.free_list@.contains(self.brick_table@[t]))
        &&& (forall|a: int, b: int|
            0 <= a < self.brick_table@.len() && 0 <= b < self.brick_table@.len() && a != b
            && #[trigger] self.brick_table@[a] != UNALLOCATED
            && #[trigger] self.brick_table@[b] != UNALLOCATED
            ==> self.brick_table@[a] != self.brick_table@[b])
        &&& self.free_list@.len() + count_allocated(self.brick_table@) == self.max_bricks
    }

    /// A fresh allocator: every brick unallocated, every slot free, slots
    /// handed out in increasing order, the GPU mirror stale.
    pub fn new(brick_grid_dim: u32, max_bricks: u32) -> (r: Self)
        requires
            1 <= brick_grid_dim <= MAX_BRICK_GRID_DIM,
            max_bricks < MAX_BRICK_SLOTS,
        ensures
            r.wf(),
            r.dim() == brick_grid_dim,
            r.max() == max_bricks,
            r.spec_dirty(),
            forall|t: int| 0 <= t < r.table().len() ==> r.table()[t] == UNALLOCATED,
            r.free().len() == max_bricks,
            forall|i: int| 0 <= i < max_bricks
                ==> #[trigger] r.free()[i] == max_bricks - 1 - i,
    {
        let dim = brick_grid_dim as usize;
        proof {
            assert(dim * dim <= 1024 * 1024) by (nonlinear_arith)
                requires 1 <= dim <= 1024;
            assert(dim * dim * dim <= 1024 * 1024 * 1024) by (nonlinear_arith)
                requires 1 <= dim <= 1024;
        }
        let table_size: usize = dim * dim * dim;
        let mut brick_table: Vec<u32> = Vec::new();
        let mut t: usize = 0;
        while t < table_size
            invariant
                0 <= t <= table_size,
                brick_table@.len() == t,
                forall|j: int| 0 <= j < t ==> brick_table@[j] == UNALLOCATED,
            decreases table_size - t,
        {
            brick_table.push(UNALLOCATED);
            t += 1;
        }

        let mut free_list: Vec<u32> = Vec::new();
        let mut i: u32 = 0;
        while i < max_bricks
            invariant
                0 <= i <= max_bricks,
                max_bricks < MAX_BRICK_SLOTS,
                free_list@.len() == i,
                forall|j: int| 0 <= j < i
                    ==> #[trigger] free_list@[j] == max_bricks - 1 - j,
            decreases max_bricks - i,
        {
            free_list.push(max_bricks - 1 - i);
            i += 1;
        }

        let r = Self {
            brick_table,
            free_list,
            brick_grid_dim,
            max_bricks,
            dirty: true,
        };
        proof {
            lemma_count_allocated_all_unallocated(r.brick_table@);
            assert(r.free_list@.no_duplicates()) by {
                assert forall|a: int, b: int|
                    0 <= a < r.free_list@.len() && 0 <= b < r.free_list@.len() && a != b
                    implies r.free_list@[a] != r.free_list@[b] by {
                    assert(r.free_list@[a] == max_bricks - 1 - a);
                    assert(r.free_list@[b] == max_bricks - 1 - b);
                }
            }
        }
        r
    }

    /// Bricks per grid edge.
    pub fn brick_grid_dim(&self) -> (r: u32)
        ensures
            r == self.dim(),
    {
        self.brick_grid_dim
    }

    /// Total pool slots.
    pub fn max_bricks(&self) -> (r: u32)
        ensures
            r == self.max(),
    {
        self.max_bricks
    }

    /// How many bricks currently hold a pool slot.
    pub fn active_brick_count(&self) -> (r: u32)
        requires
            self.wf(),
        ensures
            r == count_allocated(self.table()),
    {
        proof {
            lemma_count_allocated_bounds(self.brick_table@);
        }
        self.max_bricks - self.free_list.len() as u32
    }

    /// Whether the GPU mirror of the brick table is stale.
    pub fn is_dirty(&self) -> (r: bool)
        ensures
            r == self.spec_dirty(),
    {
        self.dirty
    }

    /// Record that the GPU mirror has been rewritten from the table.
    pub fn mark_clean(&mut self)
        ensures
            !final(self).spec_dirty(),
            final(self).table() == old(self).table(),
            final(self).free() == old(self).free(),
            final(self).dim() == old(self).dim(),
            final(self).max() == old(self).max(),
            old(self).wf() ==> final(self).wf(),
    {
        self.dirty = false;
    }

    /// The table words, for mirroring to the GPU.
    pub fn table_words(&self) -> (r: &Vec<u32>)
        ensures
            r@ == self.table(),
    {
        &self.brick_table
    }

    /// Whether the brick at `(bx, by, bz)` has a pool slot.
    pub fn is_allocated(&self, bx: u32, by: u32, bz: u32) -> (r: bool)
        requires
            self.wf(),
            bx < self.dim() && by < self.dim() && bz < self.dim(),
        ensures
            r == self.spec_is_allocated(bx as int, by as int, bz as int),
    {
        let idx = self.table_index(bx, by, bz);
        self.brick_table[idx] != UNALLOCATED
    }

    fn table_index(&self, bx: u32, by: u32, bz: u32) -> (r: usize)
        requires
            self.wf(),
            bx < self.dim() && by < self.dim() && bz < self.dim(),
        ensures
            r == grid_index_spec(bx as int, by as int, bz as int, self.dim() as int),
            r < self.table().len(),
    {
        proof {
            let d = self.brick_grid_dim as int;
            assert(d * d * d <= 0x1_0000_0000) by (nonlinear_arith)
                requires 1 <= d <= 1024;
        }
        grid_index(bx, by, bz, self.brick_grid_dim)
    }

    /// Allocate a pool slot for the brick at `(bx, by, bz)`.
    ///
    /// An already-allocated brick keeps its slot and nothing changes. An
    /// unallocated brick takes the most recently freed slot; when the free
    /// list is empty the allocation fails silently with `None` and nothing
    /// changes.
    pub fn allocate_brick(&mut self, bx: u32, by: u32, bz: u32) -> (r: Option<u32>)
        requires
            old(self).wf(),
            bx < old(self).dim() && by < old(self).dim() && bz < old(self).dim(),
        ensures
            final(self).wf(),
            final(self).dim() == old(self).dim(),
            final(self).max() == old(self).max(),
            old(self).spec_is_allocated(bx as int, by as int, bz as int) ==> {
                &&& r == Some(old(self).entry(bx as int, by as int, bz as int))
                &&& same_state(*final(self), *old(self))
            },
            !old(self).spec_is_allocated(bx as int, by as int, bz as int)
                && old(self).free().len() == 0 ==> {
                &&& r is None
                &&& same_state(*final(self), *old(self))
            },
            !old(self).spec_is_allocated(bx as int, by as int, bz as int)
                && old(self).free().len() > 0 ==> {
                let slot = old(self).free().last();
                let idx = grid_index_spec(bx as int, by as int, bz as int, old(self).dim() as int);
                &&& r == Some(slot)
                &&& final(self).table() == old(self).table().update(idx, slot)
                &&& final(self).free() == old(self).free().drop_last()
                &&& final(self).spec_dirty()
            },
            // A granted slot always fits the pool.
            r is Some ==> r.unwrap() < old(self).max(),
            // A grant leaves the brick allocated; a refusal means the pool
            // was and stays dry; the free list never grows.
            r is Some ==> final(self).spec_is_allocated(bx as int, by as int, bz as int),
            r is None ==> final(self).free().len() == 0,
            final(self).free().len() <= old(self).free().len(),
            // Allocation never disturbs other bricks.
            forall|t: int| 0 <= t < old(self).table().len()
                && t != grid_index_spec(bx as int, by as int, bz as int, old(self).dim() as int)
                ==> final(self).table()[t] == #[trigger] old(self).table()[t],
    {
        let idx = self.table_index(bx, by, bz);
        let cur = self.brick_table[idx];
        if cur != UNALLOCATED {
            return Some(cur);
        }
        match self.free_list.pop() {
            None => None,
            Some(slot) => {
                proof {
                    lemma_count_allocated_update(self.brick_table@, idx as int, slot);
                    // The popped slot is not among the remaining free slots.
                    let f0 = old(self).free_list@;
                    assert(f0.last() == slot);
                    assert forall|j: int| 0 <= j < f0.len() - 1
                        implies f0[j] != slot by {
                        assert(f0[j] == f0[j] && f0[f0.len() - 1] == slot);
                    }
                }
                self.brick_table.set(idx, slot);
                self.dirty = true;
                proof {
                    let f0 = old(self).free_list@;
                    let t0 = old(self).brick_table@;
                    assert(self.free_list@ =~= f0.drop_last());
                    assert forall|e: u32| self.free_list@.contains(e)
                        implies f0.contains(e) by {
                        let j = choose|j: int|
                            0 <= j < self.free_list@.len() && self.free_list@[j] == e;
                        assert(f0[j] == e);
                    }
                    assert forall|t: int| 0 <= t < self.brick_table@.len()
                        && #[trigger] self.brick_table@[t] != UNALLOCATED
                        implies self.brick_table@[t] < self.max_bricks
                            && !self.free_list@.contains(self.brick_table@[t]) by {
                        if t != idx as int {
                            assert(t0[t] == self.brick_table@[t]);
                            if self.free_list@.contains(t0[t]) {
                                assert(f0.contains(t0[t]));
                            }
                        } else {
                            if self.free_list@.contains(slot) {
                                let j = choose|j: int|
                                    0 <= j < self.free_list@.len() && self.free_list@[j] == slot;
                                assert(f0[j] == slot);
                                assert(j < f0.len() - 1);
                            }
                        }
                    }
                    assert forall|a: int, b: int|
                        0 <= a < self.brick_table@.len() && 0 <= b < self.brick_table@.len()
                        && a != b
                        && #[trigger] self.brick_table@[a] != UNALLOCATED
                        && #[trigger] self.brick_table@[b] != UNALLOCATED
                        implies self.brick_table@[a] != self.brick_table@[b] by {
                        if a == idx as int {
                            assert(t0[b] == self.brick_table@[b]);
                            assert(f0.contains(slot));
                        } else if b == idx as int {
                            assert(t0[a] == self.brick_table@[a]);
                            assert(f0.contains(slot));
                        }
                    }
                }
                Some(slot)
            }
        }
    }

    /// Free the slot of the brick at `(bx, by, bz)`; an unallocated brick
    /// is left alone.
    pub fn deallocate_brick(&mut self, bx: u32, by: u32, bz: u32)
        requires
            old(self).wf(),
            bx < old(self).dim() && by < old(self).dim() && bz < old(self).dim(),
        ensures
            final(self).wf(),
            final(self).dim() == old(self).dim(),
            final(self).max() == old(self).max(),
            !old(self).spec_is_allocated(bx as int, by as int, bz as int)
                ==> same_state(*final(self), *old(self)),
            old(self).spec_is_allocated(bx as int, by as int, bz as int) ==> {
                let idx = grid_index_spec(bx as int, by as int, bz as int, old(self).dim() as int);
                &&& final(self).table() == old(self).table().update(idx, UNALLOCATED)
                &&& final(self).free() == old(self).free().push(old(self).table()[idx])
                &&& final(self).spec_dirty()
            },
            forall|t: int| 0 <= t < old(self).table().len()
                && t != grid_index_spec(bx as int, by as int, bz as int, old(self).dim() as int)
                ==> final(self).table()[t] == #[trigger] old(self).table()[t],
    {
        let idx = self.table_index(bx, by, bz);
        let slot = self.brick_table[idx];
        if slot == UNALLOCATED {
            return;
        }
        proof {
            lemma_count_allocated_update(self.brick_table@, idx as int, UNALLOCATED);
            lemma_count_allocated_positive(self.brick_table@, idx as int);
        }
        self.brick_table.set(idx, UNALLOCATED);
        self.free_list.push(slot);
        self.dirty = true;
        proof {
            let f0 = old(self).free_list@;
            let t0 = old(self).brick_table@;
            let f1 = self.free_list@;
            assert(f1 =~= f0.push(slot));
            // The returned slot was granted, so it was not free; pushing it
            // keeps the free list duplicate-free.
            assert(!f0.contains(slot));
            assert forall|a: int, b: int|
                0 <= a < f1.len() && 0 <= b < f1.len() && a != b
                implies f1[a] != f1[b] by {
                if a < f0.len() && b < f0.len() {
                } else if a == f0.len() as int {
                    if f1[b] == slot {
                        assert(f0[b] == slot);
                    }
                } else {
                    if f1[a] == slot {
                        assert(f0[a] == slot);
                    }
                }
            }
            // No remaining granted slot equals the freed one, so the
            // granted/free disjointness survives.
            assert forall|t: int| 0 <= t < self.brick_table@.len()
                && #[trigger] self.brick_table@[t] != UNALLOCATED
                implies self.brick_table@[t] < self.max_bricks
                    && !f1.contains(self.brick_table@[t]) by {
                assert(t != idx as int);
                assert(t0[t] == self.brick_table@[t]);
                assert(t0[t] != t0[idx as int]);
                if f1.contains(t0[t]) {
                    let j = choose|j: int| 0 <= j < f1.len() && f1[j] == t0[t];
                    if j < f0.len() {
                        assert(f0[j] == t0[t]);
                    }
                }
            }
        }
    }

    /// Allocate the brick containing the voxel at `(x, y, z)` if it has no
    /// slot yet.
    pub fn ensure_brick_for_voxel(&mut self, x: u32, y: u32, z: u32) -> (r: Option<u32>)
        requires
            old(self).wf(),
            x < old(self).dim() * BRICK_EDGE,
            y < old(self).dim() * BRICK_EDGE,
            z < old(self).dim() * BRICK_EDGE,
        ensures
            final(self).wf(),
            final(self).dim() == old(self).dim(),
            final(self).max() == old(self).max(),
            r is Some ==> final(self).spec_is_allocated(
                x as int / 8, y as int / 8, z as int / 8),
            r is None ==> same_state(*final(self), *old(self))
                && !old(self).spec_is_allocated(x as int / 8, y as int / 8, z as int / 8),
    {
        let bx = x / BRICK_EDGE;
        let by = y / BRICK_EDGE;
        let bz = z / BRICK_EDGE;
        proof {
            let d = old(self).dim() as int;
            assert(x as int / 8 < d && y as int / 8 < d && z as int / 8 < d)
                by (nonlinear_arith)
                requires
                    (x as int) < d * 8 && (y as int) < d * 8 && (z as int) < d * 8
                    && 0 <= (x as int) && 0 <= (y as int) && 0 <= (z as int) && 0 < d;
        }
        let r = self.allocate_brick(bx, by, bz);
        proof {
            if r is Some && !old(self).spec_is_allocated(bx as int, by as int, bz as int) {
                let d = old(self).dim() as int;
                let idx = grid_index_spec(bx as int, by as int, bz as int, d);
                assert(0 <= idx < d * d * d) by (nonlinear_arith)
                    requires
                        idx == (bz as int) * d * d + (by as int) * d + (bx as int)
                        && 0 <= (bx as int) < d && 0 <= (by as int) < d
                        && 0 <= (bz as int) < d;
                assert(self.entry(bx as int, by as int, bz as int)
                    == old(self).free().last());
                assert(old(self).free().last() < old(self).max());
            }
        }
        r
    }

    /// The pool index of the voxel at `(x, y, z)`: `slot * 512` plus the
    /// position within the brick, or `None` while the brick is unallocated.
    pub fn voxel_pool_index(&self, x: u32, y: u32, z: u32) -> (r: Option<u32>)
        requires
            self.wf(),
            x < self.dim() * BRICK_EDGE,
            y < self.dim() * BRICK_EDGE,
            z < self.dim() * BRICK_EDGE,
        ensures
            r == self.spec_voxel_pool_index(x as int, y as int, z as int),
    {
        let bx = x / BRICK_EDGE;
        let by = y / BRICK_EDGE;
        let bz = z / BRICK_EDGE;
        let idx = self.table_index(bx, by, bz);
        let slot = self.brick_table[idx];
        if slot == UNALLOCATED {
            return None;
        }
        let local = (z % 8) * 64 + (y % 8) * 8 + (x % 8);
        Some(slot * BRICK_VOXELS + local)
    }

    /// The pool index the allocator grants for a voxel: defined exactly
    /// when the containing brick is allocated.
    pub open spec fn spec_voxel_pool_index(self, x: int, y: int, z: int) -> Option<u32> {
        if self.spec_is_allocated(x / 8, y / 8, z / 8) {
            Some((self.entry(x / 8, y / 8, z / 8) * 512
                + ((z % 8) * 64 + (y % 8) * 8 + (x % 8))) as u32)
        } else {
            None
        }
    }
}

/// The face offsets that border allocation visits, by index: +X, -X, +Y,
/// -Y, +Z, -Z.
pub open spec fn spec_face_offset(m: int) -> (int, int, int) {
    if m == 0 { (1, 0, 0) }
    else if m == 1 { (-1, 0, 0) }
    else if m == 2 { (0, 1, 0) }
    else if m == 3 { (0, -1, 0) }
    else if m == 4 { (0, 0, 1) }
    else { (0, 0, -1) }
}

/// The face offset with index `m`.
fn face_offset(m: usize) -> (r: (i32, i32, i32))
    requires
        m < 6,
    ensures
        (r.0 as int, r.1 as int, r.2 as int) == spec_face_offset(m as int),
{
    match m {
        0 => (1, 0, 0),
        1 => (-1, 0, 0),
        2 => (0, 1, 0),
        3 => (0, -1, 0),
        4 => (0, 0, 1),
        _ => (0, 0, -1),
    }
}

impl SparseGrid {
    /// Whether face neighbor `m` of brick `(bx, by, bz)` lies inside the
    /// brick grid.
    pub open spec fn nb_in_bounds(self, bx: int, by: int, bz: int, m: int) -> bool {
        let (dx, dy, dz) = spec_face_offset(m);
        &&& 0 <= bx + dx < self.dim()
        &&& 0 <= by + dy < self.dim()
        &&& 0 <= bz + dz < self.dim()
    }

    /// Whether border allocation has served face neighbor `m` of a brick:
    /// the neighbor lies outside the grid, or it is allocated, or the pool
    /// has run dry (exhaustion drops allocations silently).
    pub open spec fn border_covered(self, bx: int, by: int, bz: int, m: int) -> bool {
        let (dx, dy, dz) = spec_face_offset(m);
        ||| !self.nb_in_bounds(bx, by, bz, m)
        ||| self.spec_is_allocated(bx + dx, by + dy, bz + dz)
        ||| self.free().len() == 0
    }

    /// For every allocated brick, allocate its face-adjacent neighbors that
    /// are still inside the grid. Agents that step across a brick border
    /// then find their destination backed by storage. Bricks already
    /// allocated keep their slots; when the pool runs dry the remaining
    /// neighbors are skipped silently, and then the pool is dry at exit.
    pub fn proactive_border_alloc(&mut self)
        requires
            old(self).wf(),
        ensures
            final(self).wf(),
            final(self).dim() == old(self).dim(),
            final(self).max() == old(self).max(),
            final(self).table().len() == old(self).table().len(),
            forall|t: int| 0 <= t < old(self).table().len()
                && #[trigger] old(self).table()[t] != UNALLOCATED
                ==> final(self).table()[t] == old(self).table()[t],
            // Every in-bounds face neighbor of every brick that was
            // allocated at entry is allocated at exit, unless the pool ran
            // dry, in which case it is dry at exit.
            forall|bx: int, by: int, bz: int, m: int|
                0 <= bx < old(self).dim() && 0 <= by < old(self).dim()
                && 0 <= bz < old(self).dim() && 0 <= m < 6
                && old(self).spec_is_allocated(bx, by, bz)
                ==> final(self).border_covered(bx, by, bz, m),
    {
        let dim = self.brick_grid_dim;
        proof {
            let d = dim as int;
            assert(d * d * d <= 0x1_0000_0000) by (nonlinear_arith)
                requires 1 <= d <= 1024;
        }
        let n = self.brick_table.len();

        // Collect every allocated brick's coordinates; the grid is not
        // touched, so this lists exactly the bricks allocated at entry.
        let mut allocated: Vec<(u32, u32, u32)> = Vec::new();
        let mut t: usize = 0;
        while t < n
            invariant
                self.wf(),
                dim == self.dim(),
                crate::grid::grid_size_fits(dim as int),
                n == self.table().len(),
                t <= n,
                forall|k: int| 0 <= k < allocated@.len()
                    ==> (#[trigger] allocated@[k]).0 < dim
                        && allocated@[k].1 < dim && allocated@[k].2 < dim,
                forall|u: int| 0 <= u < t && #[trigger] self.table()[u] != UNALLOCATED
                    ==> allocated@.contains((
                        grid_coord_x(u, dim as int) as u32,
                        grid_coord_y(u, dim as int) as u32,
                        grid_coord_z(u, dim as int) as u32)),
            decreases n - t,
        {
            if self.brick_table[t] != UNALLOCATED {
                let ghost before = allocated@;
                let (x, y, z) = crate::grid::grid_coords(t, dim);
                allocated.push((x, y, z));
                proof {
                    assert(allocated@[allocated@.len() - 1] == (x, y, z));
                    assert forall|u: int| 0 <= u < t + 1
                        && #[trigger] self.table()[u] != UNALLOCATED
                        implies allocated@.contains((
                            grid_coord_x(u, dim as int) as u32,
                            grid_coord_y(u, dim as int) as u32,
                            grid_coord_z(u, dim as int) as u32)) by {
                        if u < t {
                            let target = (
                                grid_coord_x(u, dim as int) as u32,
                                grid_coord_y(u, dim as int) as u32,
                                grid_coord_z(u, dim as int) as u32);
                            let k = choose|k: int|
                                0 <= k < before.len() && before[k] == target;
                            assert(allocated@[k] == target);
                        }
                    }
                }
            }
            t += 1;
        }
        proof {
            assert(*self == *old(self));
        }

        // Allocate the six face neighbors of each collected brick.
        let mut j: usize = 0;
        while j < allocated.len()
            invariant
                self.wf(),
                dim == self.dim(),
                self.max() == old(self).max(),
                self.table().len() == old(self).table().len(),
                forall|k: int| 0 <= k < allocated@.len()
                    ==> (#[trigger] allocated@[k]).0 < dim
                        && allocated@[k].1 < dim && allocated@[k].2 < dim,
                forall|t: int| 0 <= t < old(self).table().len()
                    && #[trigger] old(self).table()[t] != UNALLOCATED
                    ==> self.table()[t] == old(self).table()[t],
                forall|k: int, m: int| 0 <= k < j && 0 <= m < 6
                    ==> #[trigger] self.border_covered(
                        allocated@[k].0 as int,
                        allocated@[k].1 as int, allocated@[k].2 as int, m),
            decreases allocated.len() - j,
        {
            let (bx, by, bz) = allocated[j];
            let mut m: usize = 0;
            while m < 6
                invariant
                    self.wf(),
                    dim == self.dim(),
                    self.max() == old(self).max(),
                    self.table().len() == old(self).table().len(),
                    bx < dim && by < dim && bz < dim,
                    m <= 6,
                    j < allocated@.len(),
                    allocated@[j as int] == (bx, by, bz),
                    forall|k: int| 0 <= k < allocated@.len()
                        ==> (#[trigger] allocated@[k]).0 < dim
                            && allocated@[k].1 < dim && allocated@[k].2 < dim,
                    forall|t: int| 0 <= t < old(self).table().len()
                        && #[trigger] old(self).table()[t] != UNALLOCATED
                        ==> self.table()[t] == old(self).table()[t],
                    forall|k: int, m2: int| 0 <= k < j && 0 <= m2 < 6
                        ==> #[trigger] self.border_covered(
                            allocated@[k].0 as int,
                            allocated@[k].1 as int, allocated@[k].2 as int, m2),
                    forall|m2: int| 0 <= m2 < m ==> #[trigger] self.border_covered(
                        bx as int, by as int, bz as int, m2),
                decreases 6 - m,
            {
                let (dx, dy, dz) = face_offset(m);
                let nx = bx as i64 + dx as i64;
                let ny = by as i64 + dy as i64;
                let nz = bz as i64 + dz as i64;
                if nx >= 0 && nx < dim as i64 && ny >= 0 && ny < dim as i64
                    && nz >= 0 && nz < dim as i64 {
                    let ghost pre = *self;
                    let r = self.allocate_brick(nx as u32, ny as u32, nz as u32);
                    proof {
                        assert(self.border_covered(bx as int, by as int, bz as int, m as int));
                        assert forall|k: int, m2: int| 0 <= k < j && 0 <= m2 < 6
                            implies #[trigger] self.border_covered(
                                allocated@[k].0 as int,
                                allocated@[k].1 as int, allocated@[k].2 as int, m2) by {
                            lemma_border_covered_stable(pre, *self,
                                allocated@[k].0 as int, allocated@[k].1 as int,
                                allocated@[k].2 as int, m2);
                        }
                        assert forall|m2: int| 0 <= m2 < m
                            implies #[trigger] self.border_covered(
                                bx as int, by as int, bz as int, m2) by {
                            lemma_border_covered_stable(pre, *self,
                                bx as int, by as int, bz as int, m2);
                        }
                        assert forall|t: int| 0 <= t < old(self).table().len()
                            && #[trigger] old(self).table()[t] != UNALLOCATED
                            implies self.table()[t] == old(self).table()[t] by {
                            assert(pre.table()[t] == old(self).table()[t]);
                        }
                    }
                } else {
                    proof {
                        assert(!self.nb_in_bounds(bx as int, by as int, bz as int, m as int));
                    }
                }
                m += 1;
            }
            j += 1;
        }

        proof {
            let d = dim as int;
            assert forall|bx: int, by: int, bz: int, m: int|
                0 <= bx < old(self).dim() && 0 <= by < old(self).dim()
                && 0 <= bz < old(self).dim() && 0 <= m < 6
                && old(self).spec_is_allocated(bx, by, bz)
                implies self.border_covered(bx, by, bz, m) by {
                let u = grid_index_spec(bx, by, bz, d);
                assert(0 <= u < d * d * d) by (nonlinear_arith)
                    requires
                        u == bz * d * d + by * d + bx
                        && 0 <= bx < d && 0 <= by < d && 0 <= bz < d;
                assert(d * d * d <= 0x1_0000_0000) by (nonlinear_arith)
                    requires 1 <= d <= 1024;
                crate::grid::lemma_grid_roundtrip(bx, by, bz, d);
                let target = (bx as u32, by as u32, bz as u32);
                assert(allocated@.contains(target));
                let k = choose|k: int| 0 <= k < allocated@.len() && allocated@[k] == target;
                assert(self.border_covered(
                    allocated@[k].0 as int, allocated@[k].1 as int,
                    allocated@[k].2 as int, m));
            }
        }
    }

    /// Deallocate every brick whose slot shows zero occupancy in the
    /// per-slot occupancy counts read back from the GPU; slots past the end
    /// of the counts are left alone.
    pub fn deallocate_empty_bricks(&mut self, occupancy: &Vec<u32>)
        requires
            old(self).wf(),
        ensures
            final(self).wf(),
            final(self).dim() == old(self).dim(),
            final(self).max() == old(self).max(),
            final(self).table().len() == old(self).table().len(),
            forall|t: int| 0 <= t < old(self).table().len()
                ==> final(self).table()[t] == (
                    if old(self).table()[t] != UNALLOCATED
                        && old(self).table()[t] < occupancy@.len()
                        && occupancy@[old(self).table()[t] as int] == 0 {
                        UNALLOCATED
                    } else {
                        #[trigger] old(self).table()[t]
                    }),
            // The free slots only grow: what was free stays free in place,
            // and every reclaimed slot joins the free list.
            old(self).free().len() <= final(self).free().len(),
            forall|i: int| 0 <= i < old(self).free().len()
                ==> #[trigger] final(self).free()[i] == old(self).free()[i],
            forall|t: int| 0 <= t < old(self).table().len()
                && spec_slot_reclaimed(old(self).table()[t], occupancy@)
                ==> #[trigger] final(self).free().contains(old(self).table()[t]),
    {
        let dim = self.brick_grid_dim;
        let mut bz: u32 = 0;
        while bz < dim
            invariant
                self.wf(),
                dim == self.dim(),
                self.max() == old(self).max(),
                self.table().len() == old(self).table().len(),
                bz <= dim,
                forall|t: int| 0 <= t < old(self).table().len()
                    ==> #[trigger] self.table()[t] == spec_reclaim_entry(
                        old(self).table()[t], occupancy@,
                        grid_coord_z(t, dim as int) < bz),
                old(self).free().len() <= self.free().len(),
                forall|i: int| 0 <= i < old(self).free().len()
                    ==> #[trigger] self.free()[i] == old(self).free()[i],
                forall|t: int| 0 <= t < old(self).table().len()
                    && spec_slot_reclaimed(old(self).table()[t], occupancy@)
                    && grid_coord_z(t, dim as int) < bz
                    ==> #[trigger] self.free().contains(old(self).table()[t]),
            decreases dim - bz,
        {
            let mut by: u32 = 0;
            while by < dim
                invariant
                    self.wf(),
                    dim == self.dim(),
                    self.max() == old(self).max(),
                    self.table().len() == old(self).table().len(),
                    bz < dim,
                    by <= dim,
                    forall|t: int| 0 <= t < old(self).table().len()
                        ==> #[trigger] self.table()[t] == spec_reclaim_entry(
                            old(self).table()[t], occupancy@,
                            grid_coord_z(t, dim as int) < bz
                                || (grid_coord_z(t, dim as int) == bz
                                    && grid_coord_y(t, dim as int) < by)),
                    old(self).free().len() <= self.free().len(),
                    forall|i: int| 0 <= i < old(self).free().len()
                        ==> #[trigger] self.free()[i] == old(self).free()[i],
                    forall|t: int| 0 <= t < old(self).table().len()
                        && spec_slot_reclaimed(old(self).table()[t], occupancy@)
                        && (grid_coord_z(t, dim as int) < bz
                            || (grid_coord_z(t, dim as int) == bz
                                && grid_coord_y(t, dim as int) < by))
                        ==> #[trigger] self.free().contains(old(self).table()[t]),
                decreases dim - by,
            {
                let mut bx: u32 = 0;
                while bx < dim
                    invariant
                        self.wf(),
                        dim == self.dim(),
                        self.max() == old(self).max(),
                        self.table().len() == old(self).table().len(),
                        bz < dim,
                        by < dim,
                        bx <= dim,
                        forall|t: int| 0 <= t < old(self).table().len()
                            ==> #[trigger] self.table()[t] == spec_reclaim_entry(
                                old(self).table()[t], occupancy@,
                                grid_coord_z(t, dim as int) < bz
                                    || (grid_coord_z(t, dim as int) == bz
                                        && grid_coord_y(t, dim as int) < by)
                                    || (grid_coord_z(t, dim as int) == bz
                                        && grid_coord_y(t, dim as int) == by
                                        && grid_coord_x(t, dim as int) < bx)),
                        old(self).free().len() <= self.free().len(),
                        forall|i: int| 0 <= i < old(self).free().len()
                            ==> #[trigger] self.free()[i] == old(self).free()[i],
                        forall|t: int| 0 <= t < old(self).table().len()
                            && spec_slot_reclaimed(old(self).table()[t], occupancy@)
                            && (grid_coord_z(t, dim as int) < bz
                                || (grid_coord_z(t, dim as int) == bz
                                    && grid_coord_y(t, dim as int) < by)
                                || (grid_coord_z(t, dim as int) == bz
                                    && grid_coord_y(t, dim as int) == by
                                    && grid_coord_x(t, dim as int) < bx))
                            ==> #[trigger] self.free().contains(old(self).table()[t]),
                    decreases dim - bx,
                {
                    let ghost t_cur = grid_index_spec(bx as int, by as int, bz as int, dim as int);
                    proof {
                        let d = dim as int;
                        assert(0 <= t_cur < d * d * d) by (nonlinear_arith)
                            requires
                                t_cur == (bz as int) * d * d + (by as int) * d + (bx as int)
                                && 0 <= (bx as int) < d && 0 <= (by as int) < d
                                && 0 <= (bz as int) < d;
                        assert(d * d * d <= 0x1_0000_0000) by (nonlinear_arith)
                            requires 1 <= d <= 1024;
                        crate::grid::lemma_grid_roundtrip(bx as int, by as int, bz as int, d);
                    }
                    let idx = self.table_index(bx, by, bz);
                    let slot = self.brick_table[idx];
                    let ghost pre_free = self.free();
                    if slot != UNALLOCATED
                        && (slot as usize) < occupancy.len()
                        && occupancy[slot as usize] == 0 {
                        self.deallocate_brick(bx, by, bz);
                    }
                    proof {
                        let d = dim as int;
                        assert forall|t: int| 0 <= t < old(self).table().len()
                            implies #[trigger] self.table()[t] == spec_reclaim_entry(
                                old(self).table()[t], occupancy@,
                                grid_coord_z(t, d) < bz
                                    || (grid_coord_z(t, d) == bz
                                        && grid_coord_y(t, d) < by)
                                    || (grid_coord_z(t, d) == bz
                                        && grid_coord_y(t, d) == by
                                        && grid_coord_x(t, d) < bx + 1)) by {
                            if t == t_cur {
                            } else {
                                crate::grid::lemma_grid_coords_inverse(t, d);
                            }
                        }
                        assert forall|t: int| 0 <= t < old(self).table().len()
                            && spec_slot_reclaimed(old(self).table()[t], occupancy@)
                            && (grid_coord_z(t, d) < bz
                                || (grid_coord_z(t, d) == bz
                                    && grid_coord_y(t, d) < by)
                                || (grid_coord_z(t, d) == bz
                                    && grid_coord_y(t, d) == by
                                    && grid_coord_x(t, d) < bx + 1))
                            implies #[trigger] self.free().contains(old(self).table()[t]) by {
                            if t == t_cur {
                                assert(slot == old(self).table()[t_cur]);
                                assert(self.free().last() == slot);
                            } else {
                                crate::grid::lemma_grid_coords_inverse(t, d);
                                assert(pre_free.contains(old(self).table()[t]));
                                let w = choose|w: int|
                                    0 <= w < pre_free.len()
                                    && pre_free[w] == old(self).table()[t];
                                assert(self.free()[w] == pre_free[w]);
                            }
                        }
                    }
                    bx += 1;
                }
                proof {
                    let d = dim as int;
                    assert forall|t: int| 0 <= t < old(self).table().len()
                        implies #[trigger] self.table()[t] == spec_reclaim_entry(
                            old(self).table()[t], occupancy@,
                            grid_coord_z(t, d) < bz
                                || (grid_coord_z(t, d) == bz
                                    && grid_coord_y(t, d) < by + 1)) by {
                        crate::grid::lemma_grid_coords_inverse(t, d);
                    }
                    assert forall|t: int| 0 <= t < old(self).table().len()
                        && spec_slot_reclaimed(old(self).table()[t], occupancy@)
                        && (grid_coord_z(t, d) < bz
                            || (grid_coord_z(t, d) == bz
                                && grid_coord_y(t, d) < by + 1))
                        implies #[trigger] self.free().contains(old(self).table()[t]) by {
                        crate::grid::lemma_grid_coords_inverse(t, d);
                    }
                }
                by += 1;
            }
            proof {
                let d = dim as int;
                assert forall|t: int| 0 <= t < old(self).table().len()
                    implies #[trigger] self.table()[t] == spec_reclaim_entry(
                        old(self).table()[t], occupancy@,
                        grid_coord_z(t, d) < bz + 1) by {
                    crate::grid::lemma_grid_coords_inverse(t, d);
                }
                assert forall|t: int| 0 <= t < old(self).table().len()
                    && spec_slot_reclaimed(old(self).table()[t], occupancy@)
                    && grid_coord_z(t, d) < bz + 1
                    implies #[trigger] self.free().contains(old(self).table()[t]) by {
                    crate::grid::lemma_grid_coords_inverse(t, d);
                }
            }
            bz += 1;
        }
        proof {
            let d = dim as int;
            assert forall|t: int| 0 <= t < old(self).table().len()
                implies grid_coord_z(t, d) < dim by {
                crate::grid::lemma_grid_coords_inverse(t, d);
                assert(t / (d * d) < d) by (nonlinear_arith)
                    requires 0 <= t && t < d * d * d && 0 < d;
            }
        }
    }
}

/// Whether a table entry names a slot that reclamation frees: allocated,
/// inside the occupancy counts, and empty there.
pub open spec fn spec_slot_reclaimed(entry: u32, occupancy: Seq<u32>) -> bool {
    entry != UNALLOCATED && entry < occupancy.len() && occupancy[entry as int] == 0
}

/// What one reclamation pass leaves in a table entry once its brick has
/// been visited: an allocated slot with zero occupancy is released.
pub open spec fn spec_reclaim_entry(entry: u32, occupancy: Seq<u32>, visited: bool) -> u32 {
    if visited && spec_slot_reclaimed(entry, occupancy) {
        UNALLOCATED
    } else {
        entry
    }
}

/// Once a face neighbor is covered, later allocations keep it covered:
/// allocated bricks stay allocated and the free list never grows.
proof fn lemma_border_covered_stable(
    pre: SparseGrid, post: SparseGrid, bx: int, by: int, bz: int, m: int,
)
    requires
        pre.dim() == post.dim(),
        pre.table().len() == post.table().len(),
        pre.table().len() == (pre.dim() as int) * (pre.dim() as int) * (pre.dim() as int),
        forall|t: int| 0 <= t < pre.table().len()
            && #[trigger] pre.table()[t] != UNALLOCATED
            ==> post.table()[t] == pre.table()[t],
        post.free().len() <= pre.free().len(),
        0 <= m < 6,
        pre.border_covered(bx, by, bz, m),
    ensures
        post.border_covered(bx, by, bz, m),
{
    let (dx, dy, dz) = spec_face_offset(m);
    if pre.nb_in_bounds(bx, by, bz, m) && pre.spec_is_allocated(bx + dx, by + dy, bz + dz) {
        let d = pre.dim() as int;
        let u = grid_index_spec(bx + dx, by + dy, bz + dz, d);
        assert(0 <= u < d * d * d) by (nonlinear_arith)
            requires
                u == (bz + dz) * d * d + (by + dy) * d + (bx + dx)
                && 0 <= bx + dx < d && 0 <= by + dy < d && 0 <= bz + dz < d;
    }
}

/// A brick has a pool slot exactly when the first voxel of that brick maps
/// to the start of the slot's 512-voxel region.
pub proof fn lemma_pool_index_of_brick_origin(s: SparseGrid, bx: int, by: int, bz: int)
    requires
        s.wf(),
        0 <= bx < s.dim() && 0 <= by < s.dim() && 0 <= bz < s.dim(),
    ensures
        s.spec_is_allocated(bx, by, bz) <==> s.spec_voxel_pool_index(bx * 8, by * 8, bz * 8)
            == Some((s.entry(bx, by, bz) * 512) as u32),
        !s.spec_is_allocated(bx, by, bz) <==> s.spec_voxel_pool_index(bx * 8, by * 8, bz * 8) is None,
{
    assert(bx * 8 / 8 == bx && bx * 8 % 8 == 0) by (nonlinear_arith);
    assert(by * 8 / 8 == by && by * 8 % 8 == 0) by (nonlinear_arith);
    assert(bz * 8 / 8 == bz && bz * 8 % 8 == 0) by (nonlinear_arith);
}

/// A table of unallocated entries has an allocated count of zero.
proof fn lemma_count_allocated_all_unallocated(t: Seq<u32>)
    requires
        forall|j: int| 0 <= j < t.len() ==> t[j] == UNALLOCATED,
    ensures
        count_allocated(t) == 0,
    decreases t.len(),
{
    if t.len() > 0 {
        lemma_count_allocated_all_unallocated(t.drop_last());
    }
}

/// Two allocator states that agree in every observable part.
pub open spec fn same_state(a: SparseGrid, b: SparseGrid) -> bool {
    &&& a.table() == b.table()
    &&& a.free() == b.free()
    &&& a.dim() == b.dim()
    &&& a.max() == b.max()
    &&& a.spec_dirty() == b.spec_dirty()
}

} // verus!
