//! Named initial conditions: the petri-dish, gradient and arena presets.
//!
//! Each preset restarts the tick counter, clears the grid, writes its
//! walls, nutrients, sources and finally its protocell clusters into the
//! read buffer, and resets the temperatures to ambient. Positions are
//! deterministic integer functions of the loop indices; cluster layouts
//! clamp to the grid so every preset works at any accepted grid size.

use vstd::prelude::*;
use crate::voxel::{Voxel, VoxelType};
use crate::genome::Genome;
use crate::engine::SimEngine;
use crate::params::{min_u32};

verus! {

/// A protocell voxel with the given genome and energy; its species id is
/// the genome's hash and therefore never zero.
pub fn make_protocell(genome: Genome, energy: u16) -> (r: Voxel)
    ensures
        r.voxel_type == VoxelType::Protocell,
        r.energy == energy,
        r.genome == genome,
        r.species_id == crate::genome::spec_species_id(genome),
        r.species_id != 0,
        r.age == 0,
{
    let mut v = Voxel::empty();
    v.voxel_type = VoxelType::Protocell;
    v.energy = energy;
    v.species_id = genome.species_id();
    v.genome = genome;
    v
}

/// A plain voxel of the given type and energy.
pub fn make_voxel(t: VoxelType, energy: u16, age: u16) -> (r: Voxel)
    ensures
        r.voxel_type == t,
        r.energy == energy,
        r.age == age,
{
    let mut v = Voxel::empty();
    v.voxel_type = t;
    v.energy = energy;
    v.age = age;
    v
}

impl SimEngine {
    /// Seed the default initial conditions (the petri-dish preset).
    pub fn initialize_grid(&mut self)
        requires
            old(self).wf(),
        ensures
            final(self).wf(),
            final(self).spec_grid_size() == old(self).spec_grid_size(),
            final(self).view().params == old(self).view().params,
            final(self).view().tick == 0,
            final(self).spec_read_is_a(),
            crate::sim::protocells_ok(final(self).view().cells),
            crate::sim::spec_population(final(self).view().cells, final(self).n()) > 0,
            forall|i: int| 0 <= i < final(self).n()
                ==> final(self).view().temps[i]
                    == old(self).view().params.base_ambient_temp,
    {
        self.seed_petri_dish();
    }

    /// Seed one of the named presets: 0 the petri dish, 1 the gradient,
    /// 2 the arena; any other id falls back to the petri dish.
    pub fn initialize_grid_with_preset(&mut self, preset: u32)
        requires
            old(self).wf(),
        ensures
            final(self).wf(),
            final(self).spec_grid_size() == old(self).spec_grid_size(),
            final(self).view().params == old(self).view().params,
            final(self).view().tick == 0,
            final(self).spec_read_is_a(),
            crate::sim::protocells_ok(final(self).view().cells),
            crate::sim::spec_population(final(self).view().cells, final(self).n()) > 0,
            forall|i: int| 0 <= i < final(self).n()
                ==> final(self).view().temps[i]
                    == old(self).view().params.base_ambient_temp,
    {
        if preset == 1 {
            self.seed_gradient();
        } else if preset == 2 {
            self.seed_arena();
        } else {
            self.seed_petri_dish();
        }
    }

    /// The petri dish: a nutrient cube around the center, a few walls,
    /// three energy sources, a tight cluster of fifty protocells, some
    /// waste, one heat and one cold source.
    pub fn seed_petri_dish(&mut self)
        requires
            old(self).wf(),
        ensures
            final(self).wf(),
            final(self).spec_grid_size() == old(self).spec_grid_size(),
            final(self).view().params == old(self).view().params,
            final(self).view().tick == 0,
            final(self).spec_read_is_a(),
            crate::sim::protocells_ok(final(self).view().cells),
            crate::sim::spec_population(final(self).view().cells, final(self).n()) > 0,
            forall|i: int| 0 <= i < final(self).n()
                ==> final(self).view().temps[i]
                    == old(self).view().params.base_ambient_temp,
    {
        self.reset_tick_count();
        self.clear_grid();
        let gs = self.grid_size();
        let center = gs / 2;
        let cap = gs - 1;

        // Scattered walls.
        let mut i: u32 = 0;
        while i < 5
            invariant
                self.wf(),
                self.spec_grid_size() == old(self).spec_grid_size(),
                self.view().params == old(self).view().params,
                self.view().tick == 0,
                self.spec_read_is_a(),
                crate::sim::protocells_ok(self.view().cells),
                gs == self.spec_grid_size(),
                crate::sim::sim_grid_size_ok(gs as int),
                center == gs / 2,
                cap == gs - 1,
                i <= 5,
            decreases 5 - i,
        {
            let x = min_u32(if center >= 15 { center - 15 + i * 3 } else { i * 3 }, cap);
            let y = min_u32(if center >= 15 { center - 15 } else { 0 }, cap);
            self.write_voxel(x, y, center, make_voxel(VoxelType::Wall, 0, 0));
            i += 1;
        }

        // A nutrient cube scaled to the grid.
        let half = if gs / 10 >= 4 { gs / 10 } else { 4 };
        let base = if center >= half { center - half } else { 0 };
        let mut dx: u32 = 0;
        while dx < 2 * half
            invariant
                self.wf(),
                self.spec_grid_size() == old(self).spec_grid_size(),
                self.view().params == old(self).view().params,
                self.view().tick == 0,
                self.spec_read_is_a(),
                crate::sim::protocells_ok(self.view().cells),
                gs == self.spec_grid_size(),
                crate::sim::sim_grid_size_ok(gs as int),
                half <= 30,
                base <= 256,
                dx <= 2 * half,
            decreases 2 * half - dx,
        {
            let mut dy: u32 = 0;
            while dy < 2 * half
                invariant
                    self.wf(),
                    self.spec_grid_size() == old(self).spec_grid_size(),
                    self.view().params == old(self).view().params,
                    self.view().tick == 0,
                    self.spec_read_is_a(),
                    crate::sim::protocells_ok(self.view().cells),
                    gs == self.spec_grid_size(),
                    crate::sim::sim_grid_size_ok(gs as int),
                    half <= 30,
                    base <= 256,
                    dx < 2 * half,
                    dy <= 2 * half,
                decreases 2 * half - dy,
            {
                let mut dz: u32 = 0;
                while dz < 2 * half
                    invariant
                        self.wf(),
                        self.spec_grid_size() == old(self).spec_grid_size(),
                        self.view().params == old(self).view().params,
                        self.view().tick == 0,
                        self.spec_read_is_a(),
                        crate::sim::protocells_ok(self.view().cells),
                        gs == self.spec_grid_size(),
                        crate::sim::sim_grid_size_ok(gs as int),
                        half <= 30,
                        base <= 256,
                        dx < 2 * half,
                        dy < 2 * half,
                        dz <= 2 * half,
                    decreases 2 * half - dz,
                {
                    let x = base + dx;
                    let y = base + dy;
                    let z = base + dz;
                    if x < gs && y < gs && z < gs {
                        self.write_voxel(x, y, z, make_voxel(VoxelType::Nutrient, 200, 0));
                    }
                    dz += 1;
                }
                dy += 1;
            }
            dx += 1;
        }

        // Three energy sources near the center.
        let mut i: u32 = 0;
        while i < 3
            invariant
                self.wf(),
                self.spec_grid_size() == old(self).spec_grid_size(),
                self.view().params == old(self).view().params,
                self.view().tick == 0,
                self.spec_read_is_a(),
                crate::sim::protocells_ok(self.view().cells),
                gs == self.spec_grid_size(),
                crate::sim::sim_grid_size_ok(gs as int),
                center == gs / 2,
                cap == gs - 1,
                i <= 3,
            decreases 3 - i,
        {
            let x = min_u32(if center >= 1 { center - 1 + i } else { i }, cap);
            self.write_voxel(x, center, center, make_voxel(VoxelType::EnergySource, 500, 0));
            i += 1;
        }

        // A short trail of waste.
        let mut i: u32 = 0;
        while i < 5
            invariant
                self.wf(),
                self.spec_grid_size() == old(self).spec_grid_size(),
                self.view().params == old(self).view().params,
                self.view().tick == 0,
                self.spec_read_is_a(),
                crate::sim::protocells_ok(self.view().cells),
                gs == self.spec_grid_size(),
                crate::sim::sim_grid_size_ok(gs as int),
                center == gs / 2,
                cap == gs - 1,
                i <= 5,
            decreases 5 - i,
        {
            let x = min_u32(center + 8 + i, cap);
            let y = min_u32(center + 8, cap);
            self.write_voxel(x, y, center, make_voxel(VoxelType::Waste, 0, (i * 20) as u16));
            i += 1;
        }

        // One heat source and one cold source.
        let hx = min_u32(center + 10, cap);
        let hz = min_u32(center + 10, cap);
        self.write_voxel(hx, center, hz, make_voxel(VoxelType::HeatSource, 1000, 0));
        let cx = if center >= 10 { center - 10 } else { 0 };
        self.write_voxel(cx, center, hz, make_voxel(VoxelType::ColdSource, 1000, 0));

        // Fifty protocells in a tight cluster.
        let mut k: u32 = 0;
        while k < 50
            invariant
                self.wf(),
                self.spec_grid_size() == old(self).spec_grid_size(),
                self.view().params == old(self).view().params,
                self.view().tick == 0,
                self.spec_read_is_a(),
                crate::sim::protocells_ok(self.view().cells),
                k > 0 ==> crate::sim::spec_population(self.view().cells, self.n()) > 0,
                gs == self.spec_grid_size(),
                crate::sim::sim_grid_size_ok(gs as int),
                center == gs / 2,
                cap == gs - 1,
                k <= 50,
            decreases 50 - k,
        {
            let ox = (k * 7) % 9;
            let oy = (k * 11) % 9;
            let oz = k / 16;
            let x = min_u32(if center >= 4 { center - 4 + ox } else { ox }, cap);
            let y = min_u32(if center >= 4 { center - 4 + oy } else { oy }, cap);
            let z = min_u32(if center >= 2 { center - 2 + oz } else { oz }, cap);
            let genome = Genome { bytes: [
                (80 + (k % 20) * 8) as u8,
                (30 + (k % 15) * 5) as u8,
                200,
                ((k * 3) % 256) as u8,
                (60 + (k % 10) * 15) as u8,
                (40 + (k % 8) * 20) as u8,
                0, 0, 0,
                (60 + (k % 10) * 15) as u8,
                128,
                0, 0, 0, 0, 0,
            ] };
            self.write_voxel(x, y, z, make_protocell(genome, 500));
            k += 1;
        }


        self.reset_temperatures();
    }

    /// The gradient: heat sources along one face, cold sources along the
    /// opposite one, nutrients in the middle third, an energy-source strip
    /// through the center, and eighty scattered protocells.
    pub fn seed_gradient(&mut self)
        requires
            old(self).wf(),
        ensures
            final(self).wf(),
            final(self).spec_grid_size() == old(self).spec_grid_size(),
            final(self).view().params == old(self).view().params,
            final(self).view().tick == 0,
            final(self).spec_read_is_a(),
            crate::sim::protocells_ok(final(self).view().cells),
            crate::sim::spec_population(final(self).view().cells, final(self).n()) > 0,
            forall|i: int| 0 <= i < final(self).n()
                ==> final(self).view().temps[i]
                    == old(self).view().params.base_ambient_temp,
    {
        self.reset_tick_count();
        self.clear_grid();
        let gs = self.grid_size();
        let cap = gs - 1;
        let step = if gs / 8 >= 1 { gs / 8 } else { 1 };

        // Heat sources on the low-x face, cold sources on the high-x face.
        let mut y: u32 = 0;
        while y < gs
            invariant
                self.wf(),
                self.spec_grid_size() == old(self).spec_grid_size(),
                self.view().params == old(self).view().params,
                self.view().tick == 0,
                self.spec_read_is_a(),
                crate::sim::protocells_ok(self.view().cells),
                gs == self.spec_grid_size(),
                crate::sim::sim_grid_size_ok(gs as int),
                step >= 1,
                cap == gs - 1,
            decreases gs - y,
        {
            let mut z: u32 = 0;
            while z < gs
                invariant
                    self.wf(),
                    self.spec_grid_size() == old(self).spec_grid_size(),
                    self.view().params == old(self).view().params,
                    self.view().tick == 0,
                    self.spec_read_is_a(),
                    crate::sim::protocells_ok(self.view().cells),
                    gs == self.spec_grid_size(),
                    crate::sim::sim_grid_size_ok(gs as int),
                    step >= 1,
                    cap == gs - 1,
                    y < gs,
                decreases gs - z,
            {
                self.write_voxel(0, y, z, make_voxel(VoxelType::HeatSource, 1000, 0));
                self.write_voxel(cap, y, z, make_voxel(VoxelType::ColdSource, 1000, 0));
                z = if gs - z > step { z + step } else { gs };
            }
            y = if gs - y > step { y + step } else { gs };
        }

        // Nutrients scattered through the middle third.
        let third = gs / 3;
        let mut dx: u32 = 0;
        while dx < third
            invariant
                self.wf(),
                self.spec_grid_size() == old(self).spec_grid_size(),
                self.view().params == old(self).view().params,
                self.view().tick == 0,
                self.spec_read_is_a(),
                crate::sim::protocells_ok(self.view().cells),
                gs == self.spec_grid_size(),
                crate::sim::sim_grid_size_ok(gs as int),
                third == gs / 3,
                dx <= third,
            decreases third - dx,
        {
            let mut y: u32 = 0;
            while y < gs
                invariant
                    self.wf(),
                    self.spec_grid_size() == old(self).spec_grid_size(),
                    self.view().params == old(self).view().params,
                    self.view().tick == 0,
                    self.spec_read_is_a(),
                    crate::sim::protocells_ok(self.view().cells),
                    gs == self.spec_grid_size(),
                    crate::sim::sim_grid_size_ok(gs as int),
                    third == gs / 3,
                    dx < third,
            decreases gs - y,
            {
                let mut z: u32 = 0;
                while z < gs
                    invariant
                        self.wf(),
                        self.spec_grid_size() == old(self).spec_grid_size(),
                        self.view().params == old(self).view().params,
                        self.view().tick == 0,
                        self.spec_read_is_a(),
                        crate::sim::protocells_ok(self.view().cells),
                        gs == self.spec_grid_size(),
                        crate::sim::sim_grid_size_ok(gs as int),
                        third == gs / 3,
                        dx < third,
                        y < gs,
                    decreases gs - z,
                {
                    let x = third + dx;
                    if x < gs {
                        self.write_voxel(x, y, z, make_voxel(VoxelType::Nutrient, 200, 0));
                    }
                    z = if gs - z > 3 { z + 3 } else { gs };
                }
                y = if gs - y > 3 { y + 3 } else { gs };
            }
            dx += 1;
        }

        // An energy-source strip through the center.
        let center = gs / 2;
        let sstep = if gs / 6 >= 1 { gs / 6 } else { 1 };
        let mut y: u32 = 0;
        while y < gs
            invariant
                self.wf(),
                self.spec_grid_size() == old(self).spec_grid_size(),
                self.view().params == old(self).view().params,
                self.view().tick == 0,
                self.spec_read_is_a(),
                crate::sim::protocells_ok(self.view().cells),
                gs == self.spec_grid_size(),
                crate::sim::sim_grid_size_ok(gs as int),
                sstep >= 1,
                center == gs / 2,
            decreases gs - y,
        {
            let mut z: u32 = 0;
            while z < gs
                invariant
                    self.wf(),
                    self.spec_grid_size() == old(self).spec_grid_size(),
                    self.view().params == old(self).view().params,
                    self.view().tick == 0,
                    self.spec_read_is_a(),
                    crate::sim::protocells_ok(self.view().cells),
                    gs == self.spec_grid_size(),
                    crate::sim::sim_grid_size_ok(gs as int),
                    sstep >= 1,
                    center == gs / 2,
                    y < gs,
                decreases gs - z,
            {
                self.write_voxel(center, y, z, make_voxel(VoxelType::EnergySource, 500, 0));
                z = if gs - z > sstep { z + sstep } else { gs };
            }
            y = if gs - y > sstep { y + sstep } else { gs };
        }

        // Eighty protocells scattered across the middle third.
        let span = if third >= 1 { third } else { 1 };
        let mut k: u32 = 0;
        while k < 80
            invariant
                self.wf(),
                self.spec_grid_size() == old(self).spec_grid_size(),
                self.view().params == old(self).view().params,
                self.view().tick == 0,
                self.spec_read_is_a(),
                crate::sim::protocells_ok(self.view().cells),
                k > 0 ==> crate::sim::spec_population(self.view().cells, self.n()) > 0,
                gs == self.spec_grid_size(),
                crate::sim::sim_grid_size_ok(gs as int),
                third == gs / 3,
                third <= 256,
                span >= 1,
                span <= 256,
                cap == gs - 1,
                k <= 80,
            decreases 80 - k,
        {
            let x = min_u32(third + (k * 7) % span, cap);
            let y = (k * 13) % gs;
            let z = (k * 17) % gs;
            let genome = Genome { bytes: [
                (100 + (k % 15) * 10) as u8,
                (40 + (k % 10) * 8) as u8,
                180,
                ((20 + k * 2) % 256) as u8,
                (80 + (k % 8) * 15) as u8,
                (60 + (k % 6) * 25) as u8,
                0, 0, 0,
                (50 + (k % 12) * 15) as u8,
                128,
                0, 0, 0, 0, 0,
            ] };
            self.write_voxel(x, y, z, make_protocell(genome, 500));
            k += 1;
        }

        self.reset_temperatures();
    }

    /// The arena: two wall planes with a central gap divide the grid into
    /// quadrants, each quadrant stocked differently with nutrients and
    /// sources, and a protocell cluster near each quadrant's center.
    pub fn seed_arena(&mut self)
        requires
            old(self).wf(),
        ensures
            final(self).wf(),
            final(self).spec_grid_size() == old(self).spec_grid_size(),
            final(self).view().params == old(self).view().params,
            final(self).view().tick == 0,
            final(self).spec_read_is_a(),
            crate::sim::protocells_ok(final(self).view().cells),
            crate::sim::spec_population(final(self).view().cells, final(self).n()) > 0,
            forall|i: int| 0 <= i < final(self).n()
                ==> final(self).view().temps[i]
                    == old(self).view().params.base_ambient_temp,
    {
        self.reset_tick_count();
        self.clear_grid();
        let gs = self.grid_size();
        let cap = gs - 1;
        let center = gs / 2;
        let gap = if gs / 16 >= 2 { gs / 16 } else { 2 };

        // Two crossing wall planes with a gap around the center.
        let mut i: u32 = 0;
        while i < gs
            invariant
                self.wf(),
                self.spec_grid_size() == old(self).spec_grid_size(),
                self.view().params == old(self).view().params,
                self.view().tick == 0,
                self.spec_read_is_a(),
                crate::sim::protocells_ok(self.view().cells),
                gs == self.spec_grid_size(),
                crate::sim::sim_grid_size_ok(gs as int),
                center == gs / 2,
                gap <= 256,
            decreases gs - i,
        {
            let in_gap = (center < gap || i >= center - gap) && i <= center + gap;
            if !in_gap {
                let mut z: u32 = 0;
                while z < gs
                    invariant
                        self.wf(),
                        self.spec_grid_size() == old(self).spec_grid_size(),
                        self.view().params == old(self).view().params,
                        self.view().tick == 0,
                        self.spec_read_is_a(),
                        crate::sim::protocells_ok(self.view().cells),
                        gs == self.spec_grid_size(),
                        crate::sim::sim_grid_size_ok(gs as int),
                        center == gs / 2,
                        gap <= 256,
                        i < gs,
                        z <= gs,
                    decreases gs - z,
                {
                    self.write_voxel(center, i, z, make_voxel(VoxelType::Wall, 0, 0));
                    self.write_voxel(i, center, z, make_voxel(VoxelType::Wall, 0, 0));
                    z += 1;
                }
            }
            i += 1;
        }

        // Nutrients through the quadrants, at two densities.
        let mut x: u32 = 1;
        while x < gs
            invariant
                self.wf(),
                self.spec_grid_size() == old(self).spec_grid_size(),
                self.view().params == old(self).view().params,
                self.view().tick == 0,
                self.spec_read_is_a(),
                crate::sim::protocells_ok(self.view().cells),
                gs == self.spec_grid_size(),
                crate::sim::sim_grid_size_ok(gs as int),
                center == gs / 2,
            decreases gs - x,
        {
            let mut y: u32 = 1;
            while y < gs
                invariant
                    self.wf(),
                    self.spec_grid_size() == old(self).spec_grid_size(),
                    self.view().params == old(self).view().params,
                    self.view().tick == 0,
                    self.spec_read_is_a(),
                    crate::sim::protocells_ok(self.view().cells),
                    gs == self.spec_grid_size(),
                    crate::sim::sim_grid_size_ok(gs as int),
                    center == gs / 2,
                    x < gs,
                decreases gs - y,
            {
                let energy: u16 = if x < center && y < center { 300 } else { 200 };
                self.write_voxel(x, y, center, make_voxel(VoxelType::Nutrient, energy, 0));
                let ystep: u32 = if y < center { 2 } else { 4 };
                y = if gs - y > ystep { y + ystep } else { gs };
            }
            let xstep: u32 = if x < center { 2 } else { 4 };
            x = if gs - x > xstep { x + xstep } else { gs };
        }

        // Heat, cold and energy sources spread over the quadrants.
        let q = if center / 2 >= 1 { center / 2 } else { 1 };
        let mut i: u32 = 0;
        while i < 4
            invariant
                self.wf(),
                self.spec_grid_size() == old(self).spec_grid_size(),
                self.view().params == old(self).view().params,
                self.view().tick == 0,
                self.spec_read_is_a(),
                crate::sim::protocells_ok(self.view().cells),
                gs == self.spec_grid_size(),
                crate::sim::sim_grid_size_ok(gs as int),
                center == gs / 2,
                cap == gs - 1,
                1 <= q && q <= 128,
                i <= 4,
            decreases 4 - i,
        {
            proof {
                assert((i as int) * (q as int) <= 512) by (nonlinear_arith)
                    requires 0 <= (i as int) && (i as int) < 4 && 0 <= (q as int) && (q as int) <= 128;
            }
            let spread = i * q;
            let hx = min_u32(center + 2 + spread, cap);
            let hy = min_u32(q, cap);
            self.write_voxel(hx, hy, center, make_voxel(VoxelType::HeatSource, 1000, 0));
            let cx = min_u32(1 + spread, cap);
            let cy = min_u32(center + 2 + spread, cap);
            self.write_voxel(cx, cy, center, make_voxel(VoxelType::ColdSource, 1000, 0));
            let ex = min_u32(center + 2 + spread, cap);
            self.write_voxel(ex, cy, center, make_voxel(VoxelType::EnergySource, 500, 0));
            i += 1;
        }

        // A protocell cluster near each quadrant center.
        let mut quad: u32 = 0;
        while quad < 4
            invariant
                self.wf(),
                self.spec_grid_size() == old(self).spec_grid_size(),
                self.view().params == old(self).view().params,
                self.view().tick == 0,
                self.spec_read_is_a(),
                crate::sim::protocells_ok(self.view().cells),
                quad > 0 ==> crate::sim::spec_population(self.view().cells, self.n()) > 0,
                gs == self.spec_grid_size(),
                crate::sim::sim_grid_size_ok(gs as int),
                center == gs / 2,
                cap == gs - 1,
                quad <= 4,
            decreases 4 - quad,
        {
            let qx = if quad % 2 == 0 { center / 2 } else { min_u32(center + center / 2, cap) };
            let qy = if quad / 2 == 0 { center / 2 } else { min_u32(center + center / 2, cap) };
            let mut k: u32 = 0;
            while k < 15
                invariant
                    self.wf(),
                    self.spec_grid_size() == old(self).spec_grid_size(),
                    self.view().params == old(self).view().params,
                    self.view().tick == 0,
                    self.spec_read_is_a(),
                    crate::sim::protocells_ok(self.view().cells),
                    (quad > 0 || k > 0)
                        ==> crate::sim::spec_population(self.view().cells, self.n()) > 0,
                    gs == self.spec_grid_size(),
                    crate::sim::sim_grid_size_ok(gs as int),
                    center == gs / 2,
                    cap == gs - 1,
                    qx <= cap,
                    qy <= cap,
                    quad < 4,
                    k <= 15,
                decreases 15 - k,
            {
                let x = min_u32(qx + (k * 5) % 7, cap);
                let y = min_u32(qy + (k * 3) % 7, cap);
                let genome = Genome { bytes: [
                    (80 + quad * 30 + k * 5) as u8,
                    (40 + quad * 20 + k * 3) as u8,
                    200,
                    (10 + quad * 15) as u8,
                    (60 + (k % 8) * 15) as u8,
                    (40 + (k % 6) * 20) as u8,
                    0, 0, 0,
                    (50 + quad * 30) as u8,
                    128,
                    0, 0, 0, 0, 0,
                ] };
                self.write_voxel(x, y, center, make_protocell(genome, 500));
                k += 1;
            }
            quad += 1;
        }

        self.reset_temperatures();
    }
}

} // verus!
