//! The simulation engine: double-buffered grid state driven one tick at a
//! time.
//!
//! Two voxel buffers and two temperature buffers alternate between read and
//! write roles; a role bit selects the pair, and a swap after each tick
//! costs nothing. The whole tick is a pure function of the read state, the
//! queued commands and the parameters.

use vstd::prelude::*;
use crate::voxel::{Voxel, VoxelType, spec_empty_voxel, spec_type_code};
use crate::params::{SimParams, FRAC_ONE, spec_min_u32, min_u32};
use crate::commands::{Command, CommandQueue};
use crate::grid::{grid_index, grid_index_spec, grid_coords};
use crate::genome::{Genome, spec_species_id, wrap_mul32, wrap_mul32_exec};
use crate::voxel::{arr16_of, lemma_arr16_of_view};
use crate::sim::{
    sim_grid_size_ok, temps_ok, spec_apply_commands, spec_intents, spec_resolve_cell,
    spec_diffuse_cell, apply_commands_grid, declare_intents_grid, resolve_grid, diffuse_grid,
    grid_stats, spec_population, spec_total_energy, spec_max_energy, spec_hist,
    protocells_ok, lemma_population_zero_iff_none, lemma_population_nonneg,
};
use crate::stats::SimStats;
use crate::picker::PickResult;

verus! {

/// The mathematical state of the simulation: the read-side grid and
/// temperature field, the tick count, and the parameters.
pub ghost struct SimView {
    pub cells: Seq<Voxel>,
    pub temps: Seq<u32>,
    pub tick: u32,
    pub params: SimParams,
    pub grid_size: u32,
}

/// The grid after the resolve phase.
pub open spec fn spec_resolve_all(
    cells: Seq<Voxel>, intents: Seq<u32>, params: SimParams, tick: u32, gs: int,
) -> Seq<Voxel> {
    Seq::new(cells.len(), |i: int| spec_resolve_cell(cells, intents, params, tick, gs, i))
}

/// The temperature field after the diffusion phase.
pub open spec fn spec_diffuse_all(
    cells: Seq<Voxel>, temps: Seq<u32>, params: SimParams, gs: int,
) -> Seq<u32> {
    Seq::new(cells.len(), |i: int| spec_diffuse_cell(cells, temps, params, gs, i))
}

/// One full tick: commands mutate the read grid, temperature diffuses,
/// intents are declared and resolved, and the tick count advances. The
/// next state is a pure function of the current state and the commands.
pub open spec fn spec_step(v: SimView, cmds: Seq<Command>) -> SimView {
    let p = SimParams { tick_count: v.tick, ..v.params };
    let gs = v.grid_size as int;
    let c1 = spec_apply_commands(v.cells, cmds, p, v.tick, gs);
    SimView {
        cells: spec_resolve_all(c1, spec_intents(c1, p, v.tick, gs), p, v.tick, gs),
        temps: spec_diffuse_all(c1, v.temps, p, gs),
        tick: (v.tick + 1) as u32,
        params: p,
        grid_size: v.grid_size,
    }
}

/// The state after `k` ticks with no commands: ticking is deterministic,
/// so a run is a pure function of the initial state and the parameters.
pub open spec fn spec_run(v: SimView, k: int) -> SimView
    decreases k,
{
    if k <= 0 {
        v
    } else {
        spec_step(spec_run(v, k - 1), Seq::empty())
    }
}

/// The simulation engine.
pub struct SimEngine {
    grid_size: u32,
    cells_a: Vec<Voxel>,
    cells_b: Vec<Voxel>,
    temp_a: Vec<u32>,
    temp_b: Vec<u32>,
    read_is_a: bool,
    tick_count: u32,
    params: SimParams,
}

impl SimEngine {
    /// The number of cells.
    pub open spec fn n(self) -> int {
        self.spec_grid_size() as int * self.spec_grid_size() as int
            * self.spec_grid_size() as int
    }

    /// The grid edge length.
    pub closed spec fn spec_grid_size(self) -> u32 {
        self.grid_size
    }

    /// Which buffer currently holds the read role.
    pub closed spec fn spec_read_is_a(self) -> bool {
        self.read_is_a
    }

    /// The mathematical state: read-side cells and temperatures, tick and
    /// parameters.
    pub closed spec fn view(self) -> SimView {
        SimView {
            cells: if self.read_is_a { self.cells_a@ } else { self.cells_b@ },
            temps: if self.read_is_a { self.temp_a@ } else { self.temp_b@ },
            tick: self.tick_count,
            params: self.params,
            grid_size: self.grid_size,
        }
    }

    /// Engine invariant: the grid edge is accepted, all four buffers span
    /// the grid, the read temperatures are in range, and the parameters
    /// are well-formed and carry the engine's grid size.
    pub closed spec fn wf(self) -> bool {
        &&& sim_grid_size_ok(self.grid_size as int)
        &&& self.cells_a@.len() == self.n()
        &&& self.cells_b@.len() == self.n()
        &&& self.temp_a@.len() == self.n()
        &&& self.temp_b@.len() == self.n()
        &&& temps_ok(self.temp_a@)
        &&& temps_ok(self.temp_b@)
        &&& self.params.wf()
        &&& self.params.grid_size == self.grid_size
    }

    /// What the engine invariant gives a caller about the visible state:
    /// the grid edge is accepted and the cell and temperature sequences
    /// span the grid, so the public step and run lemmas apply to an
    /// engine's own state.
    pub proof fn lemma_view_shape(self)
        requires
            self.wf(),
        ensures
            sim_grid_size_ok(self.spec_grid_size() as int),
            self.view().grid_size == self.spec_grid_size(),
            self.view().cells.len() == self.n(),
            self.view().temps.len() == self.n(),
            self.view().params.wf(),
            temps_ok(self.view().temps),
    {
    }

    /// A fresh engine: an empty grid at the ambient temperature, tick zero,
    /// buffer A reading.
    pub fn new(grid_size: u32, params: &SimParams) -> (r: Self)
        requires
            sim_grid_size_ok(grid_size as int),
        ensures
            r.wf(),
            r.spec_grid_size() == grid_size,
            r.view().tick == 0,
            r.spec_read_is_a(),
            forall|i: int| 0 <= i < r.n() ==> r.view().cells[i] == spec_empty_voxel(),
            forall|i: int| 0 <= i < r.n()
                ==> r.view().temps[i] == spec_min_u32(params.base_ambient_temp, FRAC_ONE),
    {
        let g: usize = grid_size as usize;
        proof {
            assert(g * g <= 256 * 256) by (nonlinear_arith)
                requires 1 <= g <= 256;
            assert(g * g * g <= 256 * 256 * 256) by (nonlinear_arith)
                requires 1 <= g <= 256;
        }
        let n: usize = g * g * g;
        let ambient = min_u32(params.base_ambient_temp, FRAC_ONE);
        let mut cells_a: Vec<Voxel> = Vec::new();
        let mut cells_b: Vec<Voxel> = Vec::new();
        let mut temp_a: Vec<u32> = Vec::new();
        let mut temp_b: Vec<u32> = Vec::new();
        let mut i: usize = 0;
        while i < n
            invariant
                0 <= i <= n,
                ambient <= FRAC_ONE,
                cells_a@.len() == i && cells_b@.len() == i,
                temp_a@.len() == i && temp_b@.len() == i,
                forall|k: int| 0 <= k < i ==> #[trigger] cells_a@[k] == spec_empty_voxel(),
                forall|k: int| 0 <= k < i ==> #[trigger] temp_a@[k] == ambient,
                forall|k: int| 0 <= k < i ==> #[trigger] temp_b@[k] == ambient,
            decreases n - i,
        {
            cells_a.push(Voxel::empty());
            cells_b.push(Voxel::empty());
            temp_a.push(ambient);
            temp_b.push(ambient);
            i += 1;
        }
        let mut p = params.sanitized();
        p.grid_size = grid_size;
        SimEngine {
            grid_size,
            cells_a,
            cells_b,
            temp_a,
            temp_b,
            read_is_a: true,
            tick_count: 0,
            params: p,
        }
    }

    /// The grid edge length.
    pub fn grid_size(&self) -> (r: u32)
        ensures
            r == self.spec_grid_size(),
            self.wf() ==> sim_grid_size_ok(r as int),
    {
        self.grid_size
    }

    /// Ticks completed so far.
    pub fn tick_count(&self) -> (r: u32)
        ensures
            r == self.view().tick,
    {
        self.tick_count
    }

    /// Whether buffer A currently holds the read role.
    pub fn current_read_is_a(&self) -> (r: bool)
        ensures
            r == self.spec_read_is_a(),
    {
        self.read_is_a
    }

    /// Restart the tick counter and hand the read role back to buffer A,
    /// as a fresh seeding expects. No cell data is copied.
    pub fn reset_tick_count(&mut self)
        requires
            old(self).wf(),
        ensures
            final(self).wf(),
            final(self).view().tick == 0,
            final(self).spec_read_is_a(),
            final(self).spec_grid_size() == old(self).spec_grid_size(),
            final(self).view().params == old(self).view().params,
    {
        self.tick_count = 0;
        self.read_is_a = true;
    }

    /// The current parameter block.
    pub fn params(&self) -> (r: SimParams)
        ensures
            r == self.view().params,
    {
        self.params
    }

    /// Install an edited parameter block. Fraction fields are clamped to
    /// 1.0; the grid size and tick count stay the engine's own.
    pub fn set_params(&mut self, p: &SimParams)
        requires
            old(self).wf(),
        ensures
            final(self).wf(),
            final(self).view().params == (SimParams {
                grid_size: old(self).spec_grid_size(),
                tick_count: old(self).view().tick,
                ..p.spec_sanitized()
            }),
            final(self).view().cells == old(self).view().cells,
            final(self).view().temps == old(self).view().temps,
            final(self).view().tick == old(self).view().tick,
            final(self).spec_grid_size() == old(self).spec_grid_size(),
            final(self).spec_read_is_a() == old(self).spec_read_is_a(),
    {
        let mut np = p.sanitized();
        np.grid_size = self.grid_size;
        np.tick_count = self.tick_count;
        self.params = np;
    }

    /// The voxel at `(x, y, z)` in the read grid.
    pub fn read_voxel(&self, x: u32, y: u32, z: u32) -> (r: Voxel)
        requires
            self.wf(),
            x < self.spec_grid_size(),
            y < self.spec_grid_size(),
            z < self.spec_grid_size(),
        ensures
            r == self.view().cells[grid_index_spec(
                x as int, y as int, z as int, self.spec_grid_size() as int)],
    {
        proof {
            assert(self.grid_size as int * self.grid_size as int * self.grid_size as int
                <= 0x1_0000_0000) by (nonlinear_arith)
                requires 1 <= self.grid_size as int <= 256;
        }
        let idx = grid_index(x, y, z, self.grid_size);
        if self.read_is_a {
            self.cells_a[idx]
        } else {
            self.cells_b[idx]
        }
    }

    /// Write one voxel into the read grid, as seeding and host edits do. A
    /// well-formed protocell keeps the grid's protocell invariant, and
    /// writing any protocell makes the population positive.
    pub fn write_voxel(&mut self, x: u32, y: u32, z: u32, v: Voxel)
        requires
            old(self).wf(),
            x < old(self).spec_grid_size(),
            y < old(self).spec_grid_size(),
            z < old(self).spec_grid_size(),
        ensures
            final(self).wf(),
            final(self).view().cells == old(self).view().cells.update(
                grid_index_spec(x as int, y as int, z as int,
                    old(self).spec_grid_size() as int), v),
            final(self).view().temps == old(self).view().temps,
            final(self).view().tick == old(self).view().tick,
            final(self).view().params == old(self).view().params,
            final(self).spec_grid_size() == old(self).spec_grid_size(),
            final(self).spec_read_is_a() == old(self).spec_read_is_a(),
            protocells_ok(old(self).view().cells)
                && (v.voxel_type == VoxelType::Protocell
                    ==> v.species_id == crate::genome::spec_species_id(v.genome))
                ==> protocells_ok(final(self).view().cells),
            v.voxel_type == VoxelType::Protocell
                ==> spec_population(final(self).view().cells, final(self).n()) > 0,
    {
        proof {
            assert(self.grid_size as int * self.grid_size as int * self.grid_size as int
                <= 0x1_0000_0000) by (nonlinear_arith)
                requires 1 <= self.grid_size as int <= 256;
        }
        let idx = grid_index(x, y, z, self.grid_size);
        if self.read_is_a {
            self.cells_a.set(idx, v);
        } else {
            self.cells_b.set(idx, v);
        }
        proof {
            let cells = self.view().cells;
            let i = grid_index_spec(x as int, y as int, z as int, self.grid_size as int);
            if protocells_ok(old(self).view().cells)
                && (v.voxel_type == VoxelType::Protocell
                    ==> v.species_id == crate::genome::spec_species_id(v.genome)) {
                assert forall|k: int| 0 <= k < cells.len()
                    && (#[trigger] cells[k]).voxel_type == VoxelType::Protocell
                    implies cells[k].species_id
                        == crate::genome::spec_species_id(cells[k].genome) by {
                    if k != i {
                        assert(cells[k] == old(self).view().cells[k]);
                    }
                }
            }
            if v.voxel_type == VoxelType::Protocell {
                lemma_population_zero_iff_none(cells, cells.len() as int);
                lemma_population_nonneg(cells, cells.len() as int);
                assert(cells[i].voxel_type == VoxelType::Protocell);
            }
        }
    }

    /// Run one tick: apply up to 64 queued commands to the read grid,
    /// diffuse temperature, declare and resolve intents into the write
    /// buffers, swap the buffer roles and advance the tick count. The
    /// result is exactly `spec_step` of the previous state.
    pub fn tick(&mut self, cmds: &Vec<Command>)
        requires
            old(self).wf(),
            old(self).view().tick < u32::MAX,
        ensures
            final(self).wf(),
            final(self).view() == spec_step(old(self).view(), cmds@),
            final(self).spec_grid_size() == old(self).spec_grid_size(),
            final(self).spec_read_is_a() == !old(self).spec_read_is_a(),
    {
        let gs = self.grid_size;
        let t = self.tick_count;
        let mut p = self.params;
        p.tick_count = t;
        self.params = p;

        let c1 = if self.read_is_a {
            apply_commands_grid(&self.cells_a, cmds, &p, t, gs)
        } else {
            apply_commands_grid(&self.cells_b, cmds, &p, t, gs)
        };
        let new_temps = if self.read_is_a {
            diffuse_grid(&c1, &self.temp_a, &p, gs)
        } else {
            diffuse_grid(&c1, &self.temp_b, &p, gs)
        };
        let intents = declare_intents_grid(&c1, &p, t, gs);
        let new_cells = resolve_grid(&c1, &intents, &p, t, gs);

        proof {
            let v0 = old(self).view();
            let p0 = SimParams { tick_count: v0.tick, ..v0.params };
            assert(p == p0);
            assert(new_cells@ =~= spec_resolve_all(
                c1@, spec_intents(c1@, p0, v0.tick, v0.grid_size as int),
                p0, v0.tick, v0.grid_size as int));
            assert(new_temps@ =~= spec_diffuse_all(c1@, v0.temps, p0, v0.grid_size as int));
        }

        if self.read_is_a {
            self.cells_a = c1;
            self.cells_b = new_cells;
            self.temp_b = new_temps;
        } else {
            self.cells_b = c1;
            self.cells_a = new_cells;
            self.temp_a = new_temps;
        }
        self.read_is_a = !self.read_is_a;
        self.tick_count = self.tick_count + 1;
    }

    /// Run `k` ticks with no commands queued. The result is exactly
    /// `spec_run` of the starting state: the whole run is a pure function
    /// of the initial grid and the parameters.
    pub fn run_ticks(&mut self, k: u32)
        requires
            old(self).wf(),
            old(self).view().tick as int + k as int <= u32::MAX as int,
        ensures
            final(self).wf(),
            final(self).view() == spec_run(old(self).view(), k as int),
            final(self).spec_grid_size() == old(self).spec_grid_size(),
    {
        let empty: Vec<Command> = Vec::new();
        let mut j: u32 = 0;
        while j < k
            invariant
                self.wf(),
                0 <= j <= k,
                old(self).view().tick as int + k as int <= u32::MAX as int,
                self.view().tick == old(self).view().tick + j,
                self.view() == spec_run(old(self).view(), j as int),
                self.spec_grid_size() == old(self).spec_grid_size(),
                empty@.len() == 0,
            decreases k - j,
        {
            proof {
                lemma_run_tick_count(old(self).view(), j as int);
            }
            self.tick(&empty);
            proof {
                assert(empty@ =~= Seq::<Command>::empty());
                lemma_run_tick_count(old(self).view(), j as int + 1);
            }
            j += 1;
        }
    }

    /// The statistics of the read grid: protocell population, their total
    /// and maximum energy, and the bounded species histogram.
    pub fn stats(&self) -> (r: SimStats)
        requires
            self.wf(),
        ensures
            r.population as int == spec_population(self.view().cells, self.n()),
            r.total_energy as int == if spec_total_energy(self.view().cells, self.n())
                <= u32::MAX as int {
                spec_total_energy(self.view().cells, self.n())
            } else {
                u32::MAX as int
            },
            r.max_energy as int == spec_max_energy(self.view().cells, self.n()),
            r.species_histogram@ == spec_hist(self.view().cells, self.n()),
            r.species_count == r.species_histogram@.len(),
    {
        proof {
            assert((self.grid_size as int) * (self.grid_size as int)
                * (self.grid_size as int) < 0x1_0000_0000) by (nonlinear_arith)
                requires 1 <= self.grid_size as int <= 256;
        }
        if self.read_is_a {
            grid_stats(&self.cells_a)
        } else {
            grid_stats(&self.cells_b)
        }
    }

    /// The point-query result for the voxel at `(x, y, z)`: its fields as
    /// the pick readback publishes them.
    pub fn pick_result(&self, x: u32, y: u32, z: u32) -> (r: PickResult)
        requires
            self.wf(),
            x < self.spec_grid_size(),
            y < self.spec_grid_size(),
            z < self.spec_grid_size(),
        ensures
            ({
                let v = self.view().cells[grid_index_spec(
                    x as int, y as int, z as int, self.spec_grid_size() as int)];
                &&& r.x == x && r.y == y && r.z == z
                &&& r.voxel_type == spec_type_code(v.voxel_type)
                &&& r.energy == v.energy
                &&& r.age == v.age
                &&& r.species_id == v.species_id
                &&& r.genome == v.genome.bytes
            }),
    {
        let v = self.read_voxel(x, y, z);
        PickResult {
            x,
            y,
            z,
            voxel_type: v.voxel_type.code(),
            energy: v.energy,
            age: v.age,
            species_id: v.species_id,
            genome: v.genome.bytes,
        }
    }
}

/// The protocell count of the first `n` cells depends only on those cells.
proof fn lemma_population_prefix(a: Seq<Voxel>, b: Seq<Voxel>, n: int)
    requires
        0 <= n <= a.len(),
        n <= b.len(),
        forall|k: int| 0 <= k < n ==> a[k] == b[k],
    ensures
        spec_population(a, n) == spec_population(b, n),
    decreases n,
{
    if n > 0 {
        lemma_population_prefix(a, b, n - 1);
    }
}


/// Command application writes only well-formed protocells.
proof fn lemma_apply_upto_keeps_protocells_ok(
    cells: Seq<Voxel>, cmds: Seq<Command>, params: SimParams, tick: u32, gs: int, m: int,
)
    requires
        crate::sim::protocells_ok(cells),
    ensures
        crate::sim::protocells_ok(crate::sim::spec_apply_upto(cells, cmds, params, tick, gs, m)),
        crate::sim::spec_apply_upto(cells, cmds, params, tick, gs, m).len() == cells.len(),
    decreases m,
{
    if m > 0 {
        lemma_apply_upto_keeps_protocells_ok(cells, cmds, params, tick, gs, m - 1);
        let prev = crate::sim::spec_apply_upto(cells, cmds, params, tick, gs, m - 1);
        let cur = crate::sim::spec_apply_one(prev, cmds[m - 1], params, tick, gs);
        assert forall|i: int| 0 <= i < cur.len()
            && (#[trigger] cur[i]).voxel_type == VoxelType::Protocell
            implies cur[i].species_id == crate::genome::spec_species_id(cur[i].genome) by {
            crate::sim::lemma_command_cell_keeps_protocells_ok(
                prev, cmds[m - 1], params, tick, gs, i);
        }
    }
}

/// One tick writes only well-formed protocells: every living cell of the
/// next state carries the species hash of its genome, which is never zero.
pub proof fn lemma_step_keeps_protocells_ok(v: SimView, cmds: Seq<Command>)
    requires
        sim_grid_size_ok(v.grid_size as int),
        v.cells.len() == v.grid_size as int * v.grid_size as int * v.grid_size as int,
        crate::sim::protocells_ok(v.cells),
    ensures
        crate::sim::protocells_ok(spec_step(v, cmds).cells),
        spec_step(v, cmds).cells.len() == v.cells.len(),
{
    let p = SimParams { tick_count: v.tick, ..v.params };
    let gs = v.grid_size as int;
    let m = crate::commands::spec_upload_count(cmds.len() as int);
    lemma_apply_upto_keeps_protocells_ok(v.cells, cmds, p, v.tick, gs, m);
    let c1 = spec_apply_commands(v.cells, cmds, p, v.tick, gs);
    let intents = spec_intents(c1, p, v.tick, gs);
    crate::sim::lemma_intents_upto_len(c1, p, v.tick, gs, c1.len() as int);
    let out = spec_resolve_all(c1, intents, p, v.tick, gs);
    assert forall|i: int| 0 <= i < out.len()
        && (#[trigger] out[i]).voxel_type == VoxelType::Protocell
        implies out[i].species_id == crate::genome::spec_species_id(out[i].genome) by {
        crate::sim::lemma_resolve_cell_keeps_protocells_ok(c1, intents, p, v.tick, gs, i);
    }
}

/// A whole run preserves protocell well-formedness: however many ticks
/// pass, every living cell still carries the nonzero species hash of its
/// genome.
pub proof fn lemma_run_keeps_protocells_ok(v: SimView, k: int)
    requires
        0 <= k,
        sim_grid_size_ok(v.grid_size as int),
        v.cells.len() == v.grid_size as int * v.grid_size as int * v.grid_size as int,
        crate::sim::protocells_ok(v.cells),
    ensures
        crate::sim::protocells_ok(spec_run(v, k).cells),
        spec_run(v, k).cells.len() == v.cells.len(),
        spec_run(v, k).grid_size == v.grid_size,
    decreases k,
{
    if k > 0 {
        lemma_run_keeps_protocells_ok(v, k - 1);
        lemma_step_keeps_protocells_ok(spec_run(v, k - 1), Seq::empty());
    }
}


/// No spontaneous generation across a tick: when no queued command can
/// write a protocell, a grid without protocells still has none after the
/// tick.
pub proof fn lemma_step_no_spontaneous(v: SimView, cmds: Seq<Command>)
    requires
        sim_grid_size_ok(v.grid_size as int),
        v.cells.len() == v.grid_size as int * v.grid_size as int * v.grid_size as int,
        crate::sim::no_protocells(v.cells),
        forall|c: int| 0 <= c < cmds.len()
            ==> !crate::sim::spec_command_spawns_protocell(#[trigger] cmds[c]),
    ensures
        crate::sim::no_protocells(spec_step(v, cmds).cells),
        spec_step(v, cmds).cells.len() == v.cells.len(),
{
    let p = SimParams { tick_count: v.tick, ..v.params };
    let gs = v.grid_size as int;
    let m = crate::commands::spec_upload_count(cmds.len() as int);
    crate::sim::lemma_apply_upto_no_spontaneous(v.cells, cmds, p, v.tick, gs, m);
    let c1 = spec_apply_commands(v.cells, cmds, p, v.tick, gs);
    let intents = spec_intents(c1, p, v.tick, gs);
    crate::sim::lemma_intents_upto_len(c1, p, v.tick, gs, c1.len() as int);
    let out = spec_resolve_all(c1, intents, p, v.tick, gs);
    assert forall|i: int| 0 <= i < out.len()
        implies (#[trigger] out[i]).voxel_type != VoxelType::Protocell by {
        crate::sim::lemma_resolve_cell_no_spontaneous(c1, intents, p, v.tick, gs, i);
    }
}

/// Empty-grid stability: a grid without protocells keeps a population of
/// zero for any number of command-free ticks.
pub proof fn lemma_run_empty_stays_empty(v: SimView, k: int)
    requires
        0 <= k,
        sim_grid_size_ok(v.grid_size as int),
        v.cells.len() == v.grid_size as int * v.grid_size as int * v.grid_size as int,
        crate::sim::no_protocells(v.cells),
    ensures
        crate::sim::no_protocells(spec_run(v, k).cells),
        crate::sim::spec_population(spec_run(v, k).cells, spec_run(v, k).cells.len() as int) == 0,
        spec_run(v, k).cells.len() == v.cells.len(),
        spec_run(v, k).grid_size == v.grid_size,
    decreases k,
{
    if k > 0 {
        lemma_run_empty_stays_empty(v, k - 1);
        lemma_step_no_spontaneous(spec_run(v, k - 1), Seq::empty());
    }
    let cells = spec_run(v, k).cells;
    crate::sim::lemma_population_zero_iff_none(cells, cells.len() as int);
}


/// One frame's worth of simulation: the queued commands go to the first
/// tick only, later ticks of the frame run with none.
pub open spec fn spec_frame(v: SimView, cmds: Seq<Command>, ticks: int) -> SimView {
    if ticks <= 0 {
        v
    } else {
        spec_run(spec_step(v, cmds), ticks - 1)
    }
}

impl SimEngine {
    /// Run one frame: drain the queue and run `ticks` ticks, handing the
    /// drained commands to the first tick only, as a multi-tick frame must
    /// not multiply user intent by frame lag. With zero ticks due, the
    /// drained commands are discarded.
    pub fn run_frame(&mut self, queue: &mut CommandQueue, ticks: u32)
        requires
            old(self).wf(),
            ticks <= 3,
            old(self).view().tick as int + ticks as int <= u32::MAX as int,
        ensures
            final(self).wf(),
            final(self).view() == spec_frame(old(self).view(), old(queue)@, ticks as int),
            final(self).spec_grid_size() == old(self).spec_grid_size(),
            final(queue)@ =~= Seq::<Command>::empty(),
    {
        let commands = queue.drain();
        if ticks == 0 {
            return;
        }
        self.tick(&commands);
        let empty: Vec<Command> = Vec::new();
        let ghost after_first = self.view();
        let mut j: u32 = 1;
        while j < ticks
            invariant
                self.wf(),
                1 <= j <= ticks,
                ticks <= 3,
                old(self).view().tick as int + ticks as int <= u32::MAX as int,
                after_first == spec_step(old(self).view(), old(queue)@),
                after_first.tick == old(self).view().tick + 1,
                self.view() == spec_run(after_first, j as int - 1),
                self.view().tick == old(self).view().tick + j,
                self.spec_grid_size() == old(self).spec_grid_size(),
                empty@.len() == 0,
            decreases ticks - j,
        {
            proof {
                lemma_run_tick_count(after_first, j as int - 1);
            }
            self.tick(&empty);
            proof {
                assert(empty@ =~= Seq::<Command>::empty());
                lemma_run_tick_count(after_first, j as int);
            }
            j += 1;
        }
    }
}

/// Running `k` ticks advances the tick count by `k`.
pub proof fn lemma_run_tick_count(v: SimView, k: int)
    requires
        0 <= k,
        v.tick + k <= u32::MAX,
    ensures
        spec_run(v, k).tick == v.tick + k,
        spec_run(v, k).grid_size == v.grid_size,
    decreases k,
{
    if k > 0 {
        lemma_run_tick_count(v, k - 1);
    }
}


/// The deterministic benchmark hash of a cell position.
pub open spec fn spec_benchmark_hash(x: int, y: int, z: int) -> u32 {
    wrap_mul32(x as u32, 73856093) ^ wrap_mul32(y as u32, 19349663)
        ^ wrap_mul32(z as u32, 83492791)
}

/// Genome byte `j` of a benchmark protocell, mixed from the cell hash;
/// the replication threshold, mutation rate and split ratio are fixed.
pub open spec fn spec_benchmark_byte(h: u32, j: int) -> u8 {
    if j == 0 { ((h >> 8) & 0xff) as u8 }
    else if j == 1 { ((h >> 16) & 0xff) as u8 }
    else if j == 2 { 200u8 }
    else if j == 3 { 30u8 }
    else if j == 4 { ((h >> 4) & 0xff) as u8 }
    else if j == 5 { ((h >> 12) & 0xff) as u8 }
    else if j == 9 { ((h >> 20) & 0xff) as u8 }
    else if j == 10 { 128u8 }
    else { 0u8 }
}

/// The genome of a benchmark protocell.
pub open spec fn spec_benchmark_genome(h: u32) -> Genome {
    Genome { bytes: arr16_of(Seq::new(16, |j: int| spec_benchmark_byte(h, j))) }
}

/// What benchmark seeding leaves in cell `i`: roughly 30% of cells (those
/// whose position hash ends in 0, 1 or 2 modulo 10) hold a protocell with
/// energy 500 and a hash-derived genome; the rest are empty.
pub open spec fn spec_benchmark_cell(i: int, gs: int) -> Voxel {
    let x = crate::grid::grid_coord_x(i, gs);
    let y = crate::grid::grid_coord_y(i, gs);
    let z = crate::grid::grid_coord_z(i, gs);
    let h = spec_benchmark_hash(x, y, z);
    if h % 10 < 3 {
        let g = spec_benchmark_genome(h);
        Voxel {
            voxel_type: VoxelType::Protocell,
            energy: 500,
            species_id: spec_species_id(g),
            genome: g,
            ..spec_empty_voxel()
        }
    } else {
        spec_empty_voxel()
    }
}

/// Compute one genome byte of a benchmark protocell.
fn benchmark_byte(h: u32, j: usize) -> (r: u8)
    requires
        j < 16,
    ensures
        r == spec_benchmark_byte(h, j as int),
{
    if j == 0 { ((h >> 8) & 0xff) as u8 }
    else if j == 1 { ((h >> 16) & 0xff) as u8 }
    else if j == 2 { 200 }
    else if j == 3 { 30 }
    else if j == 4 { ((h >> 4) & 0xff) as u8 }
    else if j == 5 { ((h >> 12) & 0xff) as u8 }
    else if j == 9 { ((h >> 20) & 0xff) as u8 }
    else if j == 10 { 128 }
    else { 0 }
}

/// Compute the genome of a benchmark protocell.
#[verifier::rlimit(60)]
fn benchmark_genome(h: u32) -> (r: Genome)
    ensures
        r == spec_benchmark_genome(h),
{
    let bytes = [
        benchmark_byte(h, 0), benchmark_byte(h, 1), benchmark_byte(h, 2), benchmark_byte(h, 3),
        benchmark_byte(h, 4), benchmark_byte(h, 5), benchmark_byte(h, 6), benchmark_byte(h, 7),
        benchmark_byte(h, 8), benchmark_byte(h, 9), benchmark_byte(h, 10), benchmark_byte(h, 11),
        benchmark_byte(h, 12), benchmark_byte(h, 13), benchmark_byte(h, 14), benchmark_byte(h, 15),
    ];
    let r = Genome { bytes };
    proof {
        let target = Seq::new(16, |j: int| spec_benchmark_byte(h, j));
        lemma_arr16_of_view(target);
        assert(r.bytes@ =~= target);
        assert(r.bytes =~= arr16_of(target));
    }
    r
}

/// Compute what benchmark seeding leaves in cell `i`.
fn benchmark_cell(i: usize, gs: u32) -> (r: Voxel)
    requires
        sim_grid_size_ok(gs as int),
        i < gs as int * gs as int * gs as int,
    ensures
        r == spec_benchmark_cell(i as int, gs as int),
{
    proof {
        assert((gs as int) * (gs as int) * (gs as int) <= 0x1_0000_0000)
            by (nonlinear_arith)
            requires 1 <= gs as int <= 256;
    }
    let (x, y, z) = grid_coords(i, gs);
    let h = wrap_mul32_exec(x, 73856093) ^ wrap_mul32_exec(y, 19349663)
        ^ wrap_mul32_exec(z, 83492791);
    if h % 10 < 3 {
        let g = benchmark_genome(h);
        let mut v = Voxel::empty();
        v.voxel_type = VoxelType::Protocell;
        v.energy = 500;
        v.species_id = g.species_id();
        v.genome = g;
        v
    } else {
        Voxel::empty()
    }
}

impl SimEngine {
    /// Reset every temperature to the current ambient value.
    pub fn reset_temperatures(&mut self)
        requires
            old(self).wf(),
        ensures
            final(self).wf(),
            final(self).view().cells == old(self).view().cells,
            final(self).view().tick == old(self).view().tick,
            final(self).view().params == old(self).view().params,
            final(self).spec_grid_size() == old(self).spec_grid_size(),
            final(self).spec_read_is_a() == old(self).spec_read_is_a(),
            forall|i: int| 0 <= i < final(self).n()
                ==> final(self).view().temps[i]
                    == old(self).view().params.base_ambient_temp,
    {
        let n = self.temp_a.len();
        let ambient = self.params.base_ambient_temp;
        let mut temps: Vec<u32> = Vec::new();
        let mut i: usize = 0;
        while i < n
            invariant
                0 <= i <= n,
                ambient <= FRAC_ONE,
                temps@.len() == i,
                forall|k: int| 0 <= k < i ==> #[trigger] temps@[k] == ambient,
            decreases n - i,
        {
            temps.push(ambient);
            i += 1;
        }
        if self.read_is_a {
            self.temp_a = temps;
        } else {
            self.temp_b = temps;
        }
    }

    /// Clear the read grid to all-empty cells.
    pub fn clear_grid(&mut self)
        requires
            old(self).wf(),
        ensures
            final(self).wf(),
            final(self).view().temps == old(self).view().temps,
            final(self).view().tick == old(self).view().tick,
            final(self).view().params == old(self).view().params,
            final(self).spec_grid_size() == old(self).spec_grid_size(),
            final(self).spec_read_is_a() == old(self).spec_read_is_a(),
            forall|i: int| 0 <= i < final(self).n()
                ==> final(self).view().cells[i] == spec_empty_voxel(),
            protocells_ok(final(self).view().cells),
    {
        let n = if self.read_is_a { self.cells_a.len() } else { self.cells_b.len() };
        let mut cells: Vec<Voxel> = Vec::new();
        let mut i: usize = 0;
        while i < n
            invariant
                0 <= i <= n,
                cells@.len() == i,
                forall|k: int| 0 <= k < i ==> #[trigger] cells@[k] == spec_empty_voxel(),
            decreases n - i,
        {
            cells.push(Voxel::empty());
            i += 1;
        }
        if self.read_is_a {
            self.cells_a = cells;
        } else {
            self.cells_b = cells;
        }
    }

    /// Seed roughly 30% of the grid with protocells, deterministically from
    /// the position hash, for benchmarking. Returns how many were placed;
    /// every placed protocell carries a nonzero species id.
    pub fn seed_benchmark(&mut self) -> (count: u32)
        requires
            old(self).wf(),
        ensures
            final(self).wf(),
            final(self).spec_grid_size() == old(self).spec_grid_size(),
            final(self).view().params == old(self).view().params,
            final(self).view().tick == 0,
            final(self).spec_read_is_a(),
            forall|i: int| 0 <= i < final(self).n()
                ==> final(self).view().cells[i]
                    == spec_benchmark_cell(i, old(self).spec_grid_size() as int),
            count as int == spec_population(final(self).view().cells, final(self).n()),
    {
        let gs = self.grid_size;
        proof {
            assert((gs as int) * (gs as int) * (gs as int) < 0x1_0000_0000)
                by (nonlinear_arith)
                requires 1 <= gs as int <= 256;
        }
        let n = self.cells_a.len();
        let mut cells: Vec<Voxel> = Vec::new();
        let mut count: u32 = 0;
        let mut i: usize = 0;
        while i < n
            invariant
                sim_grid_size_ok(gs as int),
                n == gs as int * gs as int * gs as int,
                0 <= i <= n,
                n < 0x1_0000_0000,
                cells@.len() == i,
                forall|k: int| 0 <= k < i
                    ==> #[trigger] cells@[k] == spec_benchmark_cell(k, gs as int),
                count as int == spec_population(cells@, i as int),
                count as int <= i as int,
            decreases n - i,
        {
            let v = benchmark_cell(i, gs);
            if matches!(v.voxel_type, VoxelType::Protocell) {
                count = count + 1;
            }
            let ghost before = cells@;
            cells.push(v);
            proof {
                lemma_population_prefix(before, cells@, i as int);
            }
            i += 1;
        }
        self.cells_a = cells;
        self.read_is_a = true;
        self.tick_count = 0;
        self.reset_temperatures();
        proof {
            assert(forall|k: int| 0 <= k < self.n()
                ==> self.view().cells[k] == spec_benchmark_cell(k, gs as int));
        }
        count
    }
}

} // verus!
