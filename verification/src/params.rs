//! Simulation parameter block.
//!
//! Rates and fractions are fixed-point values scaled by 2^16: the unit
//! `FRAC_ONE` stands for 1.0, so a diffusion rate of 0.1 is stored as
//! 6554. Energies, costs and tick counts are plain integers.

use vstd::prelude::*;

verus! {

/// Fixed-point 1.0: fractions and temperatures are scaled by this unit.
pub const FRAC_ONE: u32 = 65536;

/// Simulation parameters, re-uploaded every tick.
#[derive(Debug, Clone, Copy, PartialEq, Eq, Structural)]
pub struct SimParams {
    /// Grid edge length.
    pub grid_size: u32,
    /// Current tick, written by the engine each tick.
    pub tick_count: u32,
    /// Probability (fraction of `FRAC_ONE`) that an empty cell spawns a nutrient.
    pub nutrient_spawn_rate: u32,
    /// Age in ticks past which a waste voxel becomes a nutrient.
    pub waste_decay_ticks: u16,
    /// Fraction of `FRAC_ONE` of nutrient energy recovered from decayed waste.
    pub nutrient_recycle_rate: u32,
    /// Energy a protocell pays to move one cell.
    pub movement_energy_cost: u16,
    /// Ambient temperature (fraction of `FRAC_ONE`, in [0, 1]).
    pub base_ambient_temp: u32,
    /// Energy every protocell pays each tick.
    pub metabolic_cost_base: u16,
    /// Minimum energy at which a protocell may replicate.
    pub replication_energy_min: u16,
    /// Energy gained from consuming a nutrient.
    pub energy_from_nutrient: u16,
    /// Energy gained per tick next to an energy source.
    pub energy_from_source: u16,
    /// Temperature diffusion coefficient (fraction of `FRAC_ONE`, at most 1).
    pub diffusion_rate: u32,
    /// Strength of heat and cold sources (fraction of `FRAC_ONE`).
    pub temp_sensitivity: u32,
    /// Fraction of `FRAC_ONE` of prey energy a predator absorbs.
    pub predation_energy_fraction: u32,
    /// Upper bound on any protocell's energy.
    pub max_energy: u16,
    /// Renderer overlay selector; the tick rules ignore it.
    pub overlay_mode: u32,
}

impl SimParams {
    /// Every fraction-valued field is at most 1.0.
    pub open spec fn wf(self) -> bool {
        &&& self.nutrient_spawn_rate <= FRAC_ONE
        &&& self.nutrient_recycle_rate <= FRAC_ONE
        &&& self.base_ambient_temp <= FRAC_ONE
        &&& self.diffusion_rate <= FRAC_ONE
        &&& self.temp_sensitivity <= FRAC_ONE
        &&& self.predation_energy_fraction <= FRAC_ONE
    }

    /// The same block with every fraction-valued field clamped to 1.0.
    pub open spec fn spec_sanitized(self) -> SimParams {
        SimParams {
            nutrient_spawn_rate: spec_min_u32(self.nutrient_spawn_rate, FRAC_ONE),
            nutrient_recycle_rate: spec_min_u32(self.nutrient_recycle_rate, FRAC_ONE),
            base_ambient_temp: spec_min_u32(self.base_ambient_temp, FRAC_ONE),
            diffusion_rate: spec_min_u32(self.diffusion_rate, FRAC_ONE),
            temp_sensitivity: spec_min_u32(self.temp_sensitivity, FRAC_ONE),
            predation_energy_fraction: spec_min_u32(self.predation_energy_fraction, FRAC_ONE),
            ..self
        }
    }

    /// A copy with every fraction-valued field clamped to 1.0, so that any
    /// host-edited parameter block becomes well-formed.
    pub fn sanitized(&self) -> (r: Self)
        ensures
            r == self.spec_sanitized(),
            r.wf(),
    {
        let mut r = *self;
        r.nutrient_spawn_rate = min_u32(r.nutrient_spawn_rate, FRAC_ONE);
        r.nutrient_recycle_rate = min_u32(r.nutrient_recycle_rate, FRAC_ONE);
        r.base_ambient_temp = min_u32(r.base_ambient_temp, FRAC_ONE);
        r.diffusion_rate = min_u32(r.diffusion_rate, FRAC_ONE);
        r.temp_sensitivity = min_u32(r.temp_sensitivity, FRAC_ONE);
        r.predation_energy_fraction = min_u32(r.predation_energy_fraction, FRAC_ONE);
        r
    }
}

impl Default for SimParams {
    /// Baseline parameters for a 128-grid run.
    fn default() -> (r: Self)
        ensures
            r.wf(),
            r.grid_size == 128,
            r.tick_count == 0,
    {
        SimParams {
            grid_size: 128,
            tick_count: 0,
            nutrient_spawn_rate: 66,
            waste_decay_ticks: 100,
            nutrient_recycle_rate: 32768,
            movement_energy_cost: 5,
            base_ambient_temp: 32768,
            metabolic_cost_base: 2,
            replication_energy_min: 200,
            energy_from_nutrient: 50,
            energy_from_source: 10,
            diffusion_rate: 6554,
            temp_sensitivity: 65536,
            predation_energy_fraction: 32768,
            max_energy: 1000,
            overlay_mode: 0,
        }
    }
}

/// The smaller of two words.
pub open spec fn spec_min_u32(a: u32, b: u32) -> u32 {
    if a <= b { a } else { b }
}

/// The smaller of two words.
pub fn min_u32(a: u32, b: u32) -> (r: u32)
    ensures
        r == spec_min_u32(a, b),
{
    if a <= b { a } else { b }
}

} // verus!
