//! The tick pipeline on plain values: the executable model of one
//! simulation step.
//!
//! A tick runs five phases. Commands mutate the read grid; temperature
//! diffuses into a fresh field; every protocell declares one intent word at
//! its target cell, contention resolved by a monotonic max; every cell then
//! synthesizes its next state from the read grid and the one intent that
//! targets it; statistics reduce over the result. Every phase is a pure
//! function of the previous state, so the whole tick is too.

use vstd::prelude::*;
use crate::voxel::{Voxel, VoxelType, spec_empty_voxel, spec_type_from_u8, arr16_of, lemma_arr16_of_view, arr2_of};
use crate::genome::{Genome, spec_species_id, wrap_mul32, wrap_mul32_exec};
use crate::intent::{
    Direction, ActionType, spec_intent_encode, intent_encode,
    spec_intent_action, spec_intent_direction,
};
use crate::params::{SimParams, FRAC_ONE, spec_min_u32, min_u32};
use crate::grid::{
    grid_index, grid_coords, grid_index_spec, grid_coord_x, grid_coord_y, grid_coord_z,
};

verus! {

/// Grid edges the simulation accepts: positive and at most 256, so that
/// index arithmetic stays inside `u32` with room to spare.
pub open spec fn sim_grid_size_ok(gs: int) -> bool {
    1 <= gs <= 256
}

/// The face offset a direction stands for, in the order of
/// `neighbor_offsets`.
pub open spec fn spec_dir_offset(d: Direction) -> (int, int, int) {
    match d {
        Direction::PosX => (1, 0, 0),
        Direction::NegX => (-1, 0, 0),
        Direction::PosY => (0, 1, 0),
        Direction::NegY => (0, -1, 0),
        Direction::PosZ => (0, 0, 1),
        Direction::NegZ => (0, 0, -1),
        Direction::Self_ => (0, 0, 0),
    }
}

/// The direction with the three low bits `c`, for `c < 6`.
pub open spec fn spec_dir_of(c: int) -> Direction {
    if c == 0 { Direction::PosX }
    else if c == 1 { Direction::NegX }
    else if c == 2 { Direction::PosY }
    else if c == 3 { Direction::NegY }
    else if c == 4 { Direction::PosZ }
    else { Direction::NegZ }
}

/// The direction pointing back: the offset of the opposite negates.
pub open spec fn spec_opposite(d: Direction) -> Direction {
    match d {
        Direction::PosX => Direction::NegX,
        Direction::NegX => Direction::PosX,
        Direction::PosY => Direction::NegY,
        Direction::NegY => Direction::PosY,
        Direction::PosZ => Direction::NegZ,
        Direction::NegZ => Direction::PosZ,
        Direction::Self_ => Direction::Self_,
    }
}

/// The opposite of a direction.
pub fn opposite(d: Direction) -> (r: Direction)
    ensures
        r == spec_opposite(d),
{
    match d {
        Direction::PosX => Direction::NegX,
        Direction::NegX => Direction::PosX,
        Direction::PosY => Direction::NegY,
        Direction::NegY => Direction::PosY,
        Direction::PosZ => Direction::NegZ,
        Direction::NegZ => Direction::PosZ,
        Direction::Self_ => Direction::Self_,
    }
}

/// The linear index of the neighbor of cell `i` in direction `d`, or none
/// when that neighbor lies outside the grid (or `d` is `Self_`, which has
/// no neighbor).
pub open spec fn spec_neighbor_index(i: int, d: Direction, gs: int) -> Option<int> {
    let x = grid_coord_x(i, gs);
    let y = grid_coord_y(i, gs);
    let z = grid_coord_z(i, gs);
    let (dx, dy, dz) = spec_dir_offset(d);
    if d is Self_ {
        None
    } else if 0 <= x + dx < gs && 0 <= y + dy < gs && 0 <= z + dz < gs {
        Some(grid_index_spec(x + dx, y + dy, z + dz, gs))
    } else {
        None
    }
}

/// A neighbor index is a valid cell index.
pub proof fn lemma_neighbor_index_in_range(i: int, d: Direction, gs: int)
    requires
        sim_grid_size_ok(gs),
        0 <= i < gs * gs * gs,
    ensures
        spec_neighbor_index(i, d, gs) is Some
            ==> 0 <= spec_neighbor_index(i, d, gs).unwrap() < gs * gs * gs,
{
    if spec_neighbor_index(i, d, gs) is Some {
        let x = grid_coord_x(i, gs);
        let y = grid_coord_y(i, gs);
        let z = grid_coord_z(i, gs);
        let (dx, dy, dz) = spec_dir_offset(d);
        let n = grid_index_spec(x + dx, y + dy, z + dz, gs);
        assert(0 <= n < gs * gs * gs) by (nonlinear_arith)
            requires
                n == (z + dz) * gs * gs + (y + dy) * gs + (x + dx)
                && 0 <= x + dx < gs && 0 <= y + dy < gs && 0 <= z + dz < gs && 0 < gs;
    }
}

/// Compute the neighbor index of cell `i` in direction `d`.
pub fn neighbor_index(i: usize, d: Direction, gs: u32) -> (r: Option<usize>)
    requires
        sim_grid_size_ok(gs as int),
        i < gs as int * gs as int * gs as int,
    ensures
        r is Some ==> spec_neighbor_index(i as int, d, gs as int)
            == Some(r.unwrap() as int),
        r is None ==> spec_neighbor_index(i as int, d, gs as int) is None,
        r is Some ==> r.unwrap() < gs as int * gs as int * gs as int,
{
    proof {
        assert(gs as int * gs as int * gs as int <= 0x1_0000_0000) by (nonlinear_arith)
            requires 1 <= gs as int <= 256;
    }
    let (x, y, z) = grid_coords(i, gs);
    let (dx, dy, dz) = dir_offset(d);
    if matches!(d, Direction::Self_) {
        return None;
    }
    let nx = x as i64 + dx as i64;
    let ny = y as i64 + dy as i64;
    let nz = z as i64 + dz as i64;
    if nx >= 0 && nx < gs as i64 && ny >= 0 && ny < gs as i64
        && nz >= 0 && nz < gs as i64 {
        let n = grid_index(nx as u32, ny as u32, nz as u32, gs);
        proof {
            lemma_neighbor_index_in_range(i as int, d, gs as int);
        }
        Some(n)
    } else {
        None
    }
}

/// The face offset of a direction.
pub fn dir_offset(d: Direction) -> (r: (i32, i32, i32))
    ensures
        (r.0 as int, r.1 as int, r.2 as int) == spec_dir_offset(d),
{
    match d {
        Direction::PosX => (1, 0, 0),
        Direction::NegX => (-1, 0, 0),
        Direction::PosY => (0, 1, 0),
        Direction::NegY => (0, -1, 0),
        Direction::PosZ => (0, 0, 1),
        Direction::NegZ => (0, 0, -1),
        Direction::Self_ => (0, 0, 0),
    }
}

/// The per-cell deterministic random word, mixed from the tick count, the
/// cell index and a salt by xorshift-multiply rounds.
#[verifier::opaque]
pub open spec fn spec_rng32(tick: u32, idx: u32, salt: u32) -> u32 {
    let s0 = tick ^ wrap_mul32(idx, 0x9e37_79b9) ^ wrap_mul32(salt, 0x85eb_ca6b);
    let s1 = wrap_mul32(s0 ^ (s0 >> 16), 0x7feb_352d);
    let s2 = wrap_mul32(s1 ^ (s1 >> 15), 0x846c_a68b);
    s2 ^ (s2 >> 16)
}

/// Compute the per-cell random word.
pub fn rng32(tick: u32, idx: u32, salt: u32) -> (r: u32)
    ensures
        r == spec_rng32(tick, idx, salt),
{
    proof {
        reveal(spec_rng32);
    }
    let s0 = tick ^ wrap_mul32_exec(idx, 0x9e37_79b9) ^ wrap_mul32_exec(salt, 0x85eb_ca6b);
    let s1 = wrap_mul32_exec(s0 ^ (s0 >> 16), 0x7feb_352d);
    let s2 = wrap_mul32_exec(s1 ^ (s1 >> 15), 0x846c_a68b);
    s2 ^ (s2 >> 16)
}

/// What a neighborhood scan looks for.
#[derive(Debug, Clone, Copy, PartialEq, Eq, Structural)]
pub enum ScanKind {
    /// An empty cell, to move or replicate into.
    EmptyCell,
    /// A protocell of another species, to predate.
    Prey,
    /// A nutrient cell, to graze.
    NutrientCell,
}

/// Whether a voxel satisfies a scan.
pub open spec fn spec_cell_matches(v: Voxel, kind: ScanKind, own_species: u16) -> bool {
    match kind {
        ScanKind::EmptyCell => v.voxel_type == VoxelType::Empty,
        ScanKind::Prey => v.voxel_type == VoxelType::Protocell && v.species_id != own_species,
        ScanKind::NutrientCell => v.voxel_type == VoxelType::Nutrient,
    }
}

/// One scan step: the matching neighbor in direction `(start + k) % 6`,
/// if there is one.
pub open spec fn spec_scan_step(
    cells: Seq<Voxel>, gs: int, i: int, start: int, k: int, kind: ScanKind, own_species: u16,
) -> Option<(int, Direction)> {
    let d = spec_dir_of((start + k) % 6);
    match spec_neighbor_index(i, d, gs) {
        Some(n) => if spec_cell_matches(cells[n], kind, own_species) {
            Some((n, d))
        } else {
            None
        },
        None => None,
    }
}

/// The first matching neighbor of cell `i`, scanning the six directions
/// from `start`.
pub open spec fn spec_scan_neighbors(
    cells: Seq<Voxel>, gs: int, i: int, start: int, kind: ScanKind, own_species: u16,
) -> Option<(int, Direction)> {
    if spec_scan_step(cells, gs, i, start, 0, kind, own_species) is Some {
        spec_scan_step(cells, gs, i, start, 0, kind, own_species)
    } else if spec_scan_step(cells, gs, i, start, 1, kind, own_species) is Some {
        spec_scan_step(cells, gs, i, start, 1, kind, own_species)
    } else if spec_scan_step(cells, gs, i, start, 2, kind, own_species) is Some {
        spec_scan_step(cells, gs, i, start, 2, kind, own_species)
    } else if spec_scan_step(cells, gs, i, start, 3, kind, own_species) is Some {
        spec_scan_step(cells, gs, i, start, 3, kind, own_species)
    } else if spec_scan_step(cells, gs, i, start, 4, kind, own_species) is Some {
        spec_scan_step(cells, gs, i, start, 4, kind, own_species)
    } else {
        spec_scan_step(cells, gs, i, start, 5, kind, own_species)
    }
}

/// Scan the six neighbors of cell `i` from direction `start % 6` for the
/// first that satisfies the scan.
pub fn scan_neighbors(
    cells: &Vec<Voxel>, gs: u32, i: usize, start: u32, kind: ScanKind, own_species: u16,
) -> (r: Option<(usize, Direction)>)
    requires
        sim_grid_size_ok(gs as int),
        cells@.len() == gs as int * gs as int * gs as int,
        i < cells@.len(),
        start < 6,
    ensures
        r is Some ==> spec_scan_neighbors(
            cells@, gs as int, i as int, start as int, kind, own_species)
            == Some((r.unwrap().0 as int, r.unwrap().1))
            && r.unwrap().0 < cells@.len(),
        r is None ==> spec_scan_neighbors(
            cells@, gs as int, i as int, start as int, kind, own_species) is None,
{
    if let Some(hit) = scan_step(cells, gs, i, start, 0, kind, own_species) {
        return Some(hit);
    }
    if let Some(hit) = scan_step(cells, gs, i, start, 1, kind, own_species) {
        return Some(hit);
    }
    if let Some(hit) = scan_step(cells, gs, i, start, 2, kind, own_species) {
        return Some(hit);
    }
    if let Some(hit) = scan_step(cells, gs, i, start, 3, kind, own_species) {
        return Some(hit);
    }
    if let Some(hit) = scan_step(cells, gs, i, start, 4, kind, own_species) {
        return Some(hit);
    }
    if let Some(hit) = scan_step(cells, gs, i, start, 5, kind, own_species) {
        return Some(hit);
    }
    None
}

/// One step of the neighborhood scan, in direction `(start + k) % 6`.
fn scan_step(
    cells: &Vec<Voxel>, gs: u32, i: usize, start: u32, k: u32, kind: ScanKind, own_species: u16,
) -> (r: Option<(usize, Direction)>)
    requires
        sim_grid_size_ok(gs as int),
        cells@.len() == gs as int * gs as int * gs as int,
        i < cells@.len(),
        start < 6,
        k < 6,
    ensures
        r is Some ==> spec_scan_step(
            cells@, gs as int, i as int, start as int, k as int, kind, own_species)
            == Some((r.unwrap().0 as int, r.unwrap().1))
            && r.unwrap().0 < cells@.len(),
        r is None ==> spec_scan_step(
            cells@, gs as int, i as int, start as int, k as int, kind, own_species) is None,
{
    let c = (start + k) % 6;
    let d = dir_of(c);
    if let Some(n) = neighbor_index(i, d, gs) {
        let v = &cells[n];
        let hit = match kind {
            ScanKind::EmptyCell => matches!(v.voxel_type, VoxelType::Empty),
            ScanKind::Prey => matches!(v.voxel_type, VoxelType::Protocell)
                && v.species_id != own_species,
            ScanKind::NutrientCell => matches!(v.voxel_type, VoxelType::Nutrient),
        };
        if hit {
            Some((n, d))
        } else {
            None
        }
    } else {
        None
    }
}

/// The direction with code `c % 6`.
pub fn dir_of(c: u32) -> (r: Direction)
    requires
        c < 6,
    ensures
        r == spec_dir_of(c as int),
{
    match c {
        0 => Direction::PosX,
        1 => Direction::NegX,
        2 => Direction::PosY,
        3 => Direction::NegY,
        4 => Direction::PosZ,
        _ => Direction::NegZ,
    }
}

/// The priority bid of a protocell: its energy in the high bits, so more
/// energetic agents win conflicts, and random low bits as a tie mixer.
/// Always below 2^26.
pub open spec fn spec_bid(energy: u16, r: u32) -> u32 {
    ((energy as u32) << 10) | (r & 0x3ff)
}

/// Compute a protocell's bid.
pub fn bid_of(energy: u16, r: u32) -> (b: u32)
    ensures
        b == spec_bid(energy, r),
        b < 0x0400_0000,
{
    proof {
        lemma_bid_bound(energy, r);
    }
    ((energy as u32) << 10) | (r & 0x3ff)
}

/// A bid built from a 16-bit energy and 10 random bits fits in 26 bits.
proof fn lemma_bid_bound(energy: u16, r: u32)
    by (bit_vector)
    ensures
        (((energy as u32) << 10) | (r & 0x3ff)) < 0x0400_0000,
{
}

/// The intent a protocell at cell `i` declares: the target cell and the
/// packed word, or none when the cell holds no protocell.
///
/// The policy: an agent that cannot pay its metabolic upkeep declares
/// `Die` at its own cell. Otherwise, with energy at or above the
/// replication minimum it declares `Replicate` into the first empty
/// neighbor; failing that, an agent with predation capability of 128 or
/// more predates the first neighbor of another species; failing that it
/// moves onto the first nutrient neighbor; failing that, with probability
/// `movement_bias` in 256 it moves into the first empty neighbor; and
/// otherwise it idles at its own cell. The scan start direction and the
/// bid's low bits come from the per-cell random word.
pub open spec fn spec_intent_of(
    cells: Seq<Voxel>, params: SimParams, tick: u32, gs: int, i: int,
) -> Option<(int, u32)> {
    let v = cells[i];
    if v.voxel_type != VoxelType::Protocell {
        None
    } else {
        let r = spec_rng32(tick, i as u32, 0);
        let bid = spec_bid(v.energy, r);
        let start = (r % 6) as int;
        if v.energy <= params.metabolic_cost_base {
            Some((i, spec_intent_encode(ActionType::Die, Direction::Self_, bid)))
        } else if v.energy >= params.replication_energy_min {
            match spec_scan_neighbors(cells, gs, i, start, ScanKind::EmptyCell, v.species_id) {
                Some((n, d)) => Some((n, spec_intent_encode(ActionType::Replicate, d, bid))),
                None => Some((i, spec_intent_encode(ActionType::Idle, Direction::Self_, bid))),
            }
        } else if v.genome.bytes[7] >= 128
            && spec_scan_neighbors(cells, gs, i, start, ScanKind::Prey, v.species_id) is Some {
            let (n, d) = spec_scan_neighbors(
                cells, gs, i, start, ScanKind::Prey, v.species_id).unwrap();
            Some((n, spec_intent_encode(ActionType::Predate, d, bid)))
        } else if spec_scan_neighbors(
            cells, gs, i, start, ScanKind::NutrientCell, v.species_id) is Some {
            let (n, d) = spec_scan_neighbors(
                cells, gs, i, start, ScanKind::NutrientCell, v.species_id).unwrap();
            Some((n, spec_intent_encode(ActionType::Move, d, bid)))
        } else if ((r >> 8) & 0xff) < v.genome.bytes[4] as u32 {
            match spec_scan_neighbors(cells, gs, i, start, ScanKind::EmptyCell, v.species_id) {
                Some((n, d)) => Some((n, spec_intent_encode(ActionType::Move, d, bid))),
                None => Some((i, spec_intent_encode(ActionType::Idle, Direction::Self_, bid))),
            }
        } else {
            Some((i, spec_intent_encode(ActionType::Idle, Direction::Self_, bid)))
        }
    }
}

/// Compute the intent of the cell at `i`.
pub fn intent_of(
    cells: &Vec<Voxel>, params: &SimParams, tick: u32, gs: u32, i: usize,
) -> (r: Option<(usize, u32)>)
    requires
        sim_grid_size_ok(gs as int),
        cells@.len() == gs as int * gs as int * gs as int,
        i < cells@.len(),
    ensures
        r is Some ==> spec_intent_of(cells@, *params, tick, gs as int, i as int)
            == Some((r.unwrap().0 as int, r.unwrap().1))
            && r.unwrap().0 < cells@.len(),
        r is None ==> spec_intent_of(cells@, *params, tick, gs as int, i as int) is None,
{
    let v = cells[i];
    if !matches!(v.voxel_type, VoxelType::Protocell) {
        return None;
    }
    let r = rng32(tick, i as u32, 0);
    let bid = bid_of(v.energy, r);
    let start = r % 6;
    if v.energy <= params.metabolic_cost_base {
        Some((i, intent_encode(ActionType::Die, Direction::Self_, bid)))
    } else if v.energy >= params.replication_energy_min {
        match scan_neighbors(cells, gs, i, start, ScanKind::EmptyCell, v.species_id) {
            Some((n, d)) => Some((n, intent_encode(ActionType::Replicate, d, bid))),
            None => Some((i, intent_encode(ActionType::Idle, Direction::Self_, bid))),
        }
    } else if v.genome.predation_capability() >= 128
        && scan_neighbors(cells, gs, i, start, ScanKind::Prey, v.species_id).is_some() {
        let (n, d) = scan_neighbors(cells, gs, i, start, ScanKind::Prey, v.species_id).unwrap();
        Some((n, intent_encode(ActionType::Predate, d, bid)))
    } else if scan_neighbors(cells, gs, i, start, ScanKind::NutrientCell, v.species_id).is_some() {
        let (n, d) = scan_neighbors(
            cells, gs, i, start, ScanKind::NutrientCell, v.species_id).unwrap();
        Some((n, intent_encode(ActionType::Move, d, bid)))
    } else if ((r >> 8) & 0xff) < v.genome.movement_bias() as u32 {
        match scan_neighbors(cells, gs, i, start, ScanKind::EmptyCell, v.species_id) {
            Some((n, d)) => Some((n, intent_encode(ActionType::Move, d, bid))),
            None => Some((i, intent_encode(ActionType::Idle, Direction::Self_, bid))),
        }
    } else {
        Some((i, intent_encode(ActionType::Idle, Direction::Self_, bid)))
    }
}


/// Subtraction on energies that stops at zero.
pub open spec fn spec_sat_sub16(a: u16, b: u16) -> u16 {
    if a >= b { (a - b) as u16 } else { 0 }
}

/// Compute a saturating energy subtraction.
pub fn sat_sub16(a: u16, b: u16) -> (r: u16)
    ensures
        r == spec_sat_sub16(a, b),
{
    if a >= b { a - b } else { 0 }
}

/// Addition on energies, capped at `cap`.
pub open spec fn spec_add_cap16(a: u16, b: u16, cap: u16) -> u16 {
    if a + b <= cap { (a + b) as u16 } else { cap }
}

/// Compute a capped energy addition.
pub fn add_cap16(a: u16, b: u16, cap: u16) -> (r: u16)
    ensures
        r == spec_add_cap16(a, b, cap),
{
    let sum = a as u32 + b as u32;
    if sum <= cap as u32 { sum as u16 } else { cap }
}

/// An age one tick later, stopping at the largest representable age.
pub open spec fn spec_age_up(age: u16) -> u16 {
    if age == 0xffff { age } else { (age + 1) as u16 }
}

/// Compute the next age.
pub fn age_up(age: u16) -> (r: u16)
    ensures
        r == spec_age_up(age),
{
    if age == 0xffff { age } else { age + 1 }
}

/// The energy handed to a child: the parent's post-upkeep energy scaled by
/// the genome's split ratio (a fraction of 256). Never exceeds the parent's.
pub open spec fn spec_child_share(pe: u16, split: u8) -> u16 {
    ((pe as int) * (split as int) / 256) as u16
}

/// Compute a child's energy share.
pub fn child_share(pe: u16, split: u8) -> (r: u16)
    ensures
        r == spec_child_share(pe, split),
        r <= pe,
{
    proof {
        assert((pe as int) * (split as int) / 256 <= pe as int) by (nonlinear_arith)
            requires 0 <= pe as int && 0 <= split as int <= 255;
        assert(0 <= (pe as int) * (split as int) / 256) by (nonlinear_arith)
            requires 0 <= pe as int && 0 <= split as int;
    }
    ((pe as u32) * (split as u32) / 256) as u16
}

/// The energy a predator absorbs: the prey's energy scaled by the
/// predation fraction (a fraction of 2^16, at most 1).
pub open spec fn spec_predation_gain(prey_energy: u16, frac: u32) -> u16 {
    ((prey_energy as int) * (frac as int) / 65536) as u16
}

/// Compute a predation gain.
pub fn predation_gain(prey_energy: u16, frac: u32) -> (r: u16)
    requires
        frac <= FRAC_ONE,
    ensures
        r == spec_predation_gain(prey_energy, frac),
{
    proof {
        assert((prey_energy as int) * (frac as int) / 65536 <= prey_energy as int)
            by (nonlinear_arith)
            requires 0 <= prey_energy as int && 0 <= frac as int <= 65536;
        assert(0 <= (prey_energy as int) * (frac as int) / 65536) by (nonlinear_arith)
            requires 0 <= prey_energy as int && 0 <= frac as int;
    }
    ((prey_energy as u64) * (frac as u64) / 65536) as u16
}

/// A fresh nutrient voxel carrying the given energy.
pub open spec fn spec_nutrient_voxel(energy: u16) -> Voxel {
    Voxel { voxel_type: VoxelType::Nutrient, energy, ..spec_empty_voxel() }
}

/// A fresh waste voxel with age zero.
pub open spec fn spec_waste_voxel() -> Voxel {
    Voxel { voxel_type: VoxelType::Waste, ..spec_empty_voxel() }
}

/// Build a fresh nutrient voxel.
pub fn make_nutrient(energy: u16) -> (r: Voxel)
    ensures
        r == spec_nutrient_voxel(energy),
{
    let mut v = Voxel::empty();
    v.voxel_type = VoxelType::Nutrient;
    v.energy = energy;
    v
}

/// Build a fresh waste voxel.
pub fn make_waste() -> (r: Voxel)
    ensures
        r == spec_waste_voxel(),
{
    let mut v = Voxel::empty();
    v.voxel_type = VoxelType::Waste;
    v
}

/// Genome byte `j` after the mutation roll for a child born at cell `i`:
/// with probability `mutation_rate` in 255, one random bit flips.
pub open spec fn spec_mutated_byte(g: Genome, tick: u32, i: int, j: int) -> u8 {
    let r = spec_rng32(tick, i as u32, (256 + j) as u32);
    if (r % 255) < g.bytes[3] as u32 {
        g.bytes[j] ^ (1u8 << (((r >> 8) % 8) as u8))
    } else {
        g.bytes[j]
    }
}

/// Compute one mutated genome byte.
pub fn mutated_byte(g: &Genome, tick: u32, i: usize, j: usize) -> (r: u8)
    requires
        j < 16,
        i < 0x1_0000_0000,
    ensures
        r == spec_mutated_byte(*g, tick, i as int, j as int),
{
    let r = rng32(tick, i as u32, 256 + j as u32);
    if (r % 255) < g.bytes[3] as u32 {
        proof {
            assert((r >> 8) % 8 < 8) by (bit_vector);
        }
        g.bytes[j] ^ (1u8 << (((r >> 8) % 8) as u8))
    } else {
        g.bytes[j]
    }
}

/// The genome a child inherits at cell `i`: each byte rolls one mutation.
pub open spec fn spec_mutate_genome(g: Genome, tick: u32, i: int) -> Genome {
    Genome { bytes: arr16_of(Seq::new(16, |j: int| spec_mutated_byte(g, tick, i, j))) }
}

/// Compute a child's genome.
#[verifier::rlimit(60)]
pub fn mutate_genome(g: &Genome, tick: u32, i: usize) -> (r: Genome)
    requires
        i < 0x1_0000_0000,
    ensures
        r == spec_mutate_genome(*g, tick, i as int),
{
    let bytes = [
        mutated_byte(g, tick, i, 0), mutated_byte(g, tick, i, 1),
        mutated_byte(g, tick, i, 2), mutated_byte(g, tick, i, 3),
        mutated_byte(g, tick, i, 4), mutated_byte(g, tick, i, 5),
        mutated_byte(g, tick, i, 6), mutated_byte(g, tick, i, 7),
        mutated_byte(g, tick, i, 8), mutated_byte(g, tick, i, 9),
        mutated_byte(g, tick, i, 10), mutated_byte(g, tick, i, 11),
        mutated_byte(g, tick, i, 12), mutated_byte(g, tick, i, 13),
        mutated_byte(g, tick, i, 14), mutated_byte(g, tick, i, 15),
    ];
    let r = Genome { bytes };
    proof {
        let target = Seq::new(16, |j: int| spec_mutated_byte(*g, tick, i as int, j));
        lemma_arr16_of_view(target);
        assert(r.bytes@ =~= target);
        assert(r.bytes =~= arr16_of(target));
    }
    r
}

/// The voxel that moves into a target cell: the source agent, one movement
/// cost poorer, one tick older, plus the nutrient energy if it grazed.
pub open spec fn spec_moved_voxel(src: Voxel, target: Voxel, params: SimParams) -> Voxel {
    let e1 = spec_sat_sub16(src.energy, params.movement_energy_cost);
    let e = if target.voxel_type == VoxelType::Nutrient {
        spec_add_cap16(e1, params.energy_from_nutrient, params.max_energy)
    } else {
        e1
    };
    Voxel { energy: e, age: spec_age_up(src.age), ..src }
}

/// The voxel of a predator that has consumed the prey at the target cell.
pub open spec fn spec_predator_voxel(src: Voxel, prey: Voxel, params: SimParams) -> Voxel {
    let gain = spec_predation_gain(prey.energy, params.predation_energy_fraction);
    Voxel {
        energy: spec_add_cap16(src.energy, gain, params.max_energy),
        age: spec_age_up(src.age),
        ..src
    }
}

/// The newborn at cell `i`: a protocell with the child's share of the
/// parent's post-upkeep energy, a freshly rolled genome, age zero, and the
/// species hash of that genome.
pub open spec fn spec_child_voxel(parent: Voxel, params: SimParams, tick: u32, i: int) -> Voxel {
    let pe = spec_sat_sub16(parent.energy, params.metabolic_cost_base);
    let g = spec_mutate_genome(parent.genome, tick, i);
    Voxel {
        voxel_type: VoxelType::Protocell,
        flags: 0,
        energy: spec_child_share(pe, parent.genome.bytes[10]),
        age: 0,
        species_id: spec_species_id(g),
        genome: g,
        extra: arr2_of(0, 0),
    }
}

/// Whether the winning intent at the neighbor of `i` in direction `d`
/// pulls the agent at `i` away: its direction names `i` as the source, and
/// it is a valid move onto an empty or nutrient cell, or a valid predation
/// of a protocell there.
pub open spec fn spec_pulls_from(
    cells: Seq<Voxel>, intents: Seq<u32>, gs: int, i: int, d: Direction,
) -> bool {
    match spec_neighbor_index(i, d, gs) {
        Some(n) => {
            let w = intents[n];
            spec_intent_direction(w) == d && {
                ||| (spec_intent_action(w) == ActionType::Move
                    && (cells[n].voxel_type == VoxelType::Empty
                        || cells[n].voxel_type == VoxelType::Nutrient))
                ||| (spec_intent_action(w) == ActionType::Predate
                    && cells[n].voxel_type == VoxelType::Protocell)
            }
        },
        None => false,
    }
}

/// Whether the agent at `i` leaves its cell this tick: some neighbor's
/// winning intent moves it there or eats it there.
pub open spec fn spec_vacated(cells: Seq<Voxel>, intents: Seq<u32>, gs: int, i: int) -> bool {
    ||| spec_pulls_from(cells, intents, gs, i, Direction::PosX)
    ||| spec_pulls_from(cells, intents, gs, i, Direction::NegX)
    ||| spec_pulls_from(cells, intents, gs, i, Direction::PosY)
    ||| spec_pulls_from(cells, intents, gs, i, Direction::NegY)
    ||| spec_pulls_from(cells, intents, gs, i, Direction::PosZ)
    ||| spec_pulls_from(cells, intents, gs, i, Direction::NegZ)
}

/// Whether the winning intent at the neighbor of `i` in direction `d` is a
/// valid replication out of `i` into an empty cell there.
pub open spec fn spec_spawns_into(
    cells: Seq<Voxel>, intents: Seq<u32>, gs: int, i: int, d: Direction,
) -> bool {
    match spec_neighbor_index(i, d, gs) {
        Some(n) => spec_intent_direction(intents[n]) == d
            && spec_intent_action(intents[n]) == ActionType::Replicate
            && cells[n].voxel_type == VoxelType::Empty,
        None => false,
    }
}

/// Whether the agent at `i` parents a child somewhere this tick.
pub open spec fn spec_replicated(cells: Seq<Voxel>, intents: Seq<u32>, gs: int, i: int) -> bool {
    ||| spec_spawns_into(cells, intents, gs, i, Direction::PosX)
    ||| spec_spawns_into(cells, intents, gs, i, Direction::NegX)
    ||| spec_spawns_into(cells, intents, gs, i, Direction::PosY)
    ||| spec_spawns_into(cells, intents, gs, i, Direction::NegY)
    ||| spec_spawns_into(cells, intents, gs, i, Direction::PosZ)
    ||| spec_spawns_into(cells, intents, gs, i, Direction::NegZ)
}

/// Whether any face neighbor of `i` is an energy source.
pub open spec fn spec_near_source(cells: Seq<Voxel>, gs: int, i: int) -> bool {
    ||| spec_source_at(cells, gs, i, Direction::PosX)
    ||| spec_source_at(cells, gs, i, Direction::NegX)
    ||| spec_source_at(cells, gs, i, Direction::PosY)
    ||| spec_source_at(cells, gs, i, Direction::NegY)
    ||| spec_source_at(cells, gs, i, Direction::PosZ)
    ||| spec_source_at(cells, gs, i, Direction::NegZ)
}

/// Whether the neighbor of `i` in direction `d` is an energy source.
pub open spec fn spec_source_at(cells: Seq<Voxel>, gs: int, i: int, d: Direction) -> bool {
    match spec_neighbor_index(i, d, gs) {
        Some(n) => cells[n].voxel_type == VoxelType::EnergySource,
        None => false,
    }
}

/// A protocell that stays put: it pays the metabolic upkeep, harvests
/// adjacent energy sources, ages one tick, and starves into waste at zero
/// energy.
pub open spec fn spec_staying_voxel(cells: Seq<Voxel>, params: SimParams, gs: int, i: int) -> Voxel {
    let cur = cells[i];
    let pe = spec_sat_sub16(cur.energy, params.metabolic_cost_base);
    let e = if spec_near_source(cells, gs, i) {
        spec_add_cap16(pe, params.energy_from_source, params.max_energy)
    } else {
        pe
    };
    if e == 0 {
        spec_waste_voxel()
    } else {
        Voxel { energy: e, age: spec_age_up(cur.age), ..cur }
    }
}

/// A parent that has just replicated: it pays the metabolic upkeep, hands
/// the child its share, and ages one tick; an exhausted parent starves
/// into waste.
pub open spec fn spec_parent_voxel(cur: Voxel, params: SimParams) -> Voxel {
    let pe = spec_sat_sub16(cur.energy, params.metabolic_cost_base);
    let keep = (pe - spec_child_share(pe, cur.genome.bytes[10])) as u16;
    if keep == 0 {
        spec_waste_voxel()
    } else {
        Voxel { energy: keep, age: spec_age_up(cur.age), ..cur }
    }
}

/// The default next state of cell `i` when no winning intent rewrites it:
/// empty cells may spawn a nutrient, waste decays into a nutrient after
/// its time, agents leave, split or stay, and everything else persists.
/// Ages saturate at the largest 16-bit value, so waste already at that age
/// decays only when `waste_decay_ticks` is below it.
pub open spec fn spec_default_cell(
    cells: Seq<Voxel>, intents: Seq<u32>, params: SimParams, tick: u32, gs: int, i: int,
) -> Voxel {
    let cur = cells[i];
    if cur.voxel_type == VoxelType::Empty {
        if (spec_rng32(tick, i as u32, 7) & 0xffff) < params.nutrient_spawn_rate {
            spec_nutrient_voxel(params.energy_from_nutrient)
        } else {
            cur
        }
    } else if cur.voxel_type == VoxelType::Waste {
        let new_age = spec_age_up(cur.age);
        if new_age as int > params.waste_decay_ticks as int {
            spec_nutrient_voxel(spec_recycled_energy(params))
        } else {
            Voxel { age: new_age, ..cur }
        }
    } else if cur.voxel_type == VoxelType::Protocell {
        if spec_vacated(cells, intents, gs, i) {
            spec_empty_voxel()
        } else if spec_replicated(cells, intents, gs, i) {
            spec_parent_voxel(cur, params)
        } else {
            spec_staying_voxel(cells, params, gs, i)
        }
    } else {
        cur
    }
}

/// The nutrient energy recovered from decayed waste.
pub open spec fn spec_recycled_energy(params: SimParams) -> u16 {
    ((params.energy_from_nutrient as int) * (params.nutrient_recycle_rate as int) / 65536) as u16
}

/// Compute the recycled nutrient energy.
pub fn recycled_energy(params: &SimParams) -> (r: u16)
    requires
        params.wf(),
    ensures
        r == spec_recycled_energy(*params),
{
    proof {
        assert((params.energy_from_nutrient as int) * (params.nutrient_recycle_rate as int)
            / 65536 <= params.energy_from_nutrient as int) by (nonlinear_arith)
            requires 0 <= params.energy_from_nutrient as int
                && 0 <= params.nutrient_recycle_rate as int <= 65536;
        assert(0 <= (params.energy_from_nutrient as int)
            * (params.nutrient_recycle_rate as int) / 65536) by (nonlinear_arith)
            requires 0 <= params.energy_from_nutrient as int
                && 0 <= params.nutrient_recycle_rate as int;
    }
    ((params.energy_from_nutrient as u64) * (params.nutrient_recycle_rate as u64) / 65536) as u16
}

/// The next state of cell `i`: the winning intent that targets it is
/// executed if its named source and this target fit the action; otherwise
/// the cell follows its default course.
pub open spec fn spec_resolve_cell(
    cells: Seq<Voxel>, intents: Seq<u32>, params: SimParams, tick: u32, gs: int, i: int,
) -> Voxel {
    let w = intents[i];
    let a = spec_intent_action(w);
    let d = spec_intent_direction(w);
    let src = spec_neighbor_index(i, spec_opposite(d), gs);
    if a == ActionType::Move && !(d is Self_) && src is Some
        && cells[src.unwrap()].voxel_type == VoxelType::Protocell
        && (cells[i].voxel_type == VoxelType::Empty
            || cells[i].voxel_type == VoxelType::Nutrient) {
        spec_moved_voxel(cells[src.unwrap()], cells[i], params)
    } else if a == ActionType::Predate && !(d is Self_) && src is Some
        && cells[src.unwrap()].voxel_type == VoxelType::Protocell
        && cells[i].voxel_type == VoxelType::Protocell {
        spec_predator_voxel(cells[src.unwrap()], cells[i], params)
    } else if a == ActionType::Replicate && !(d is Self_) && src is Some
        && cells[src.unwrap()].voxel_type == VoxelType::Protocell
        && cells[i].voxel_type == VoxelType::Empty {
        spec_child_voxel(cells[src.unwrap()], params, tick, i)
    } else if a == ActionType::Die && d is Self_
        && cells[i].voxel_type == VoxelType::Protocell {
        spec_waste_voxel()
    } else {
        spec_default_cell(cells, intents, params, tick, gs, i)
    }
}


/// Check whether the winning intent at the neighbor in direction `d` pulls
/// the agent at `i` away.
fn pulls_from(
    cells: &Vec<Voxel>, intents: &Vec<u32>, gs: u32, i: usize, d: Direction,
) -> (r: bool)
    requires
        sim_grid_size_ok(gs as int),
        cells@.len() == gs as int * gs as int * gs as int,
        intents@.len() == cells@.len(),
        i < cells@.len(),
    ensures
        r == spec_pulls_from(cells@, intents@, gs as int, i as int, d),
{
    match neighbor_index(i, d, gs) {
        Some(n) => {
            let w = intents[n];
            let (a, wd, _b) = crate::intent::intent_decode(w);
            wd == d && (
                (matches!(a, ActionType::Move)
                    && (matches!(cells[n].voxel_type, VoxelType::Empty)
                        || matches!(cells[n].voxel_type, VoxelType::Nutrient)))
                || (matches!(a, ActionType::Predate)
                    && matches!(cells[n].voxel_type, VoxelType::Protocell)))
        },
        None => false,
    }
}

/// Check whether the agent at `i` leaves its cell this tick.
fn vacated(cells: &Vec<Voxel>, intents: &Vec<u32>, gs: u32, i: usize) -> (r: bool)
    requires
        sim_grid_size_ok(gs as int),
        cells@.len() == gs as int * gs as int * gs as int,
        intents@.len() == cells@.len(),
        i < cells@.len(),
    ensures
        r == spec_vacated(cells@, intents@, gs as int, i as int),
{
    pulls_from(cells, intents, gs, i, Direction::PosX)
        || pulls_from(cells, intents, gs, i, Direction::NegX)
        || pulls_from(cells, intents, gs, i, Direction::PosY)
        || pulls_from(cells, intents, gs, i, Direction::NegY)
        || pulls_from(cells, intents, gs, i, Direction::PosZ)
        || pulls_from(cells, intents, gs, i, Direction::NegZ)
}

/// Check whether the winning intent at the neighbor in direction `d` is a
/// valid replication out of `i`.
fn spawns_into(
    cells: &Vec<Voxel>, intents: &Vec<u32>, gs: u32, i: usize, d: Direction,
) -> (r: bool)
    requires
        sim_grid_size_ok(gs as int),
        cells@.len() == gs as int * gs as int * gs as int,
        intents@.len() == cells@.len(),
        i < cells@.len(),
    ensures
        r == spec_spawns_into(cells@, intents@, gs as int, i as int, d),
{
    match neighbor_index(i, d, gs) {
        Some(n) => {
            let (a, wd, _b) = crate::intent::intent_decode(intents[n]);
            wd == d && matches!(a, ActionType::Replicate)
                && matches!(cells[n].voxel_type, VoxelType::Empty)
        },
        None => false,
    }
}

/// Check whether the agent at `i` parents a child this tick.
fn replicated(cells: &Vec<Voxel>, intents: &Vec<u32>, gs: u32, i: usize) -> (r: bool)
    requires
        sim_grid_size_ok(gs as int),
        cells@.len() == gs as int * gs as int * gs as int,
        intents@.len() == cells@.len(),
        i < cells@.len(),
    ensures
        r == spec_replicated(cells@, intents@, gs as int, i as int),
{
    spawns_into(cells, intents, gs, i, Direction::PosX)
        || spawns_into(cells, intents, gs, i, Direction::NegX)
        || spawns_into(cells, intents, gs, i, Direction::PosY)
        || spawns_into(cells, intents, gs, i, Direction::NegY)
        || spawns_into(cells, intents, gs, i, Direction::PosZ)
        || spawns_into(cells, intents, gs, i, Direction::NegZ)
}

/// Check whether the neighbor of `i` in direction `d` is an energy source.
fn source_at(cells: &Vec<Voxel>, gs: u32, i: usize, d: Direction) -> (r: bool)
    requires
        sim_grid_size_ok(gs as int),
        cells@.len() == gs as int * gs as int * gs as int,
        i < cells@.len(),
    ensures
        r == spec_source_at(cells@, gs as int, i as int, d),
{
    match neighbor_index(i, d, gs) {
        Some(n) => matches!(cells[n].voxel_type, VoxelType::EnergySource),
        None => false,
    }
}

/// Check whether any face neighbor of `i` is an energy source.
fn near_source(cells: &Vec<Voxel>, gs: u32, i: usize) -> (r: bool)
    requires
        sim_grid_size_ok(gs as int),
        cells@.len() == gs as int * gs as int * gs as int,
        i < cells@.len(),
    ensures
        r == spec_near_source(cells@, gs as int, i as int),
{
    source_at(cells, gs, i, Direction::PosX)
        || source_at(cells, gs, i, Direction::NegX)
        || source_at(cells, gs, i, Direction::PosY)
        || source_at(cells, gs, i, Direction::NegY)
        || source_at(cells, gs, i, Direction::PosZ)
        || source_at(cells, gs, i, Direction::NegZ)
}

/// Compute the default next state of cell `i`.
fn default_cell(
    cells: &Vec<Voxel>, intents: &Vec<u32>, params: &SimParams, tick: u32, gs: u32, i: usize,
) -> (r: Voxel)
    requires
        sim_grid_size_ok(gs as int),
        cells@.len() == gs as int * gs as int * gs as int,
        intents@.len() == cells@.len(),
        i < cells@.len(),
        params.wf(),
    ensures
        r == spec_default_cell(cells@, intents@, *params, tick, gs as int, i as int),
{
    let cur = cells[i];
    match cur.voxel_type {
        VoxelType::Empty => {
            if (rng32(tick, i as u32, 7) & 0xffff) < params.nutrient_spawn_rate {
                make_nutrient(params.energy_from_nutrient)
            } else {
                cur
            }
        },
        VoxelType::Waste => {
            let new_age = age_up(cur.age);
            if new_age as u32 > params.waste_decay_ticks as u32 {
                make_nutrient(recycled_energy(params))
            } else {
                Voxel { age: new_age, ..cur }
            }
        },
        VoxelType::Protocell => {
            if vacated(cells, intents, gs, i) {
                Voxel::empty()
            } else if replicated(cells, intents, gs, i) {
                let pe = sat_sub16(cur.energy, params.metabolic_cost_base);
                let keep = pe - child_share(pe, cur.genome.energy_split_ratio());
                if keep == 0 {
                    make_waste()
                } else {
                    Voxel { energy: keep, age: age_up(cur.age), ..cur }
                }
            } else {
                let pe = sat_sub16(cur.energy, params.metabolic_cost_base);
                let e = if near_source(cells, gs, i) {
                    add_cap16(pe, params.energy_from_source, params.max_energy)
                } else {
                    pe
                };
                if e == 0 {
                    make_waste()
                } else {
                    Voxel { energy: e, age: age_up(cur.age), ..cur }
                }
            }
        },
        _ => cur,
    }
}

/// Compute the next state of cell `i` from the read grid and the winning
/// intent that targets it.
#[verifier::rlimit(80)]
pub fn resolve_cell(
    cells: &Vec<Voxel>, intents: &Vec<u32>, params: &SimParams, tick: u32, gs: u32, i: usize,
) -> (r: Voxel)
    requires
        sim_grid_size_ok(gs as int),
        cells@.len() == gs as int * gs as int * gs as int,
        intents@.len() == cells@.len(),
        i < cells@.len(),
        params.wf(),
    ensures
        r == spec_resolve_cell(cells@, intents@, *params, tick, gs as int, i as int),
{
    proof {
        assert(gs as int * gs as int * gs as int <= 0x1_0000_0000) by (nonlinear_arith)
            requires 1 <= gs as int <= 256;
    }
    let w = intents[i];
    let (a, d, _b) = crate::intent::intent_decode(w);
    let src = if matches!(d, Direction::Self_) {
        None
    } else {
        neighbor_index(i, opposite(d), gs)
    };
    match a {
        ActionType::Move => {
            if let Some(s) = src {
                if matches!(cells[s].voxel_type, VoxelType::Protocell)
                    && (matches!(cells[i].voxel_type, VoxelType::Empty)
                        || matches!(cells[i].voxel_type, VoxelType::Nutrient)) {
                    let src_v = cells[s];
                    let target_v = cells[i];
                    let e1 = sat_sub16(src_v.energy, params.movement_energy_cost);
                    let e = if matches!(target_v.voxel_type, VoxelType::Nutrient) {
                        add_cap16(e1, params.energy_from_nutrient, params.max_energy)
                    } else {
                        e1
                    };
                    return Voxel { energy: e, age: age_up(src_v.age), ..src_v };
                }
            }
            default_cell(cells, intents, params, tick, gs, i)
        },
        ActionType::Predate => {
            if let Some(s) = src {
                if matches!(cells[s].voxel_type, VoxelType::Protocell)
                    && matches!(cells[i].voxel_type, VoxelType::Protocell) {
                    let src_v = cells[s];
                    let gain = predation_gain(cells[i].energy, params.predation_energy_fraction);
                    return Voxel {
                        energy: add_cap16(src_v.energy, gain, params.max_energy),
                        age: age_up(src_v.age),
                        ..src_v
                    };
                }
            }
            default_cell(cells, intents, params, tick, gs, i)
        },
        ActionType::Replicate => {
            if let Some(s) = src {
                if matches!(cells[s].voxel_type, VoxelType::Protocell)
                    && matches!(cells[i].voxel_type, VoxelType::Empty) {
                    let parent = cells[s];
                    let pe = sat_sub16(parent.energy, params.metabolic_cost_base);
                    let g = mutate_genome(&parent.genome, tick, i);
                    let child = Voxel {
                        voxel_type: VoxelType::Protocell,
                        flags: 0,
                        energy: child_share(pe, parent.genome.energy_split_ratio()),
                        age: 0,
                        species_id: g.species_id(),
                        genome: g,
                        extra: [0, 0],
                    };
                    proof {
                        let expect = spec_child_voxel(
                            cells@[s as int], *params, tick, i as int);
                        assert(child.extra =~= expect.extra);
                    }
                    return child;
                }
            }
            default_cell(cells, intents, params, tick, gs, i)
        },
        ActionType::Die => {
            if matches!(d, Direction::Self_)
                && matches!(cells[i].voxel_type, VoxelType::Protocell) {
                return make_waste();
            }
            default_cell(cells, intents, params, tick, gs, i)
        },
        _ => default_cell(cells, intents, params, tick, gs, i),
    }
}


/// Temperatures are fixed point in [0, 1]: every value is at most
/// `FRAC_ONE`.
pub open spec fn temps_ok(temps: Seq<u32>) -> bool {
    forall|i: int| 0 <= i < temps.len() ==> #[trigger] temps[i] <= FRAC_ONE
}

/// The temperature cell `i` sees in direction `d`: walls insulate and the
/// grid border reflects, both standing in for the cell's own temperature.
pub open spec fn spec_neighbor_temp(
    cells: Seq<Voxel>, temps: Seq<u32>, gs: int, i: int, d: Direction,
) -> u32 {
    match spec_neighbor_index(i, d, gs) {
        Some(n) => if cells[n].voxel_type == VoxelType::Wall { temps[i] } else { temps[n] },
        None => temps[i],
    }
}

/// The next temperature of cell `i`: walls hold their temperature; every
/// other cell blends toward the mean of its six neighbors by the diffusion
/// rate, heat and cold sources add or remove their term, and the result is
/// clamped to [0, 1].
pub open spec fn spec_diffuse_cell(
    cells: Seq<Voxel>, temps: Seq<u32>, params: SimParams, gs: int, i: int,
) -> u32 {
    if cells[i].voxel_type == VoxelType::Wall {
        temps[i]
    } else {
        let t0 = temps[i] as int;
        let sum = spec_neighbor_temp(cells, temps, gs, i, Direction::PosX) as int
            + spec_neighbor_temp(cells, temps, gs, i, Direction::NegX) as int
            + spec_neighbor_temp(cells, temps, gs, i, Direction::PosY) as int
            + spec_neighbor_temp(cells, temps, gs, i, Direction::NegY) as int
            + spec_neighbor_temp(cells, temps, gs, i, Direction::PosZ) as int
            + spec_neighbor_temp(cells, temps, gs, i, Direction::NegZ) as int;
        let avg = sum / 6;
        let k = params.diffusion_rate as int;
        let base = ((FRAC_ONE as int - k) * t0 + k * avg) / (FRAC_ONE as int);
        let delta = params.temp_sensitivity as int / 16;
        let v = if cells[i].voxel_type == VoxelType::HeatSource {
            base + delta
        } else if cells[i].voxel_type == VoxelType::ColdSource {
            base - delta
        } else {
            base
        };
        if v < 0 { 0 } else if v > FRAC_ONE as int { FRAC_ONE } else { v as u32 }
    }
}

/// Look up the temperature cell `i` sees in direction `d`.
fn neighbor_temp(
    cells: &Vec<Voxel>, temps: &Vec<u32>, gs: u32, i: usize, d: Direction,
) -> (r: u32)
    requires
        sim_grid_size_ok(gs as int),
        cells@.len() == gs as int * gs as int * gs as int,
        temps@.len() == cells@.len(),
        i < cells@.len(),
        temps_ok(temps@),
    ensures
        r == spec_neighbor_temp(cells@, temps@, gs as int, i as int, d),
        r <= FRAC_ONE,
{
    match neighbor_index(i, d, gs) {
        Some(n) => if matches!(cells[n].voxel_type, VoxelType::Wall) {
            temps[i]
        } else {
            temps[n]
        },
        None => temps[i],
    }
}

/// Compute the next temperature of cell `i`.
fn diffuse_cell(
    cells: &Vec<Voxel>, temps: &Vec<u32>, params: &SimParams, gs: u32, i: usize,
) -> (r: u32)
    requires
        sim_grid_size_ok(gs as int),
        cells@.len() == gs as int * gs as int * gs as int,
        temps@.len() == cells@.len(),
        i < cells@.len(),
        temps_ok(temps@),
        params.wf(),
    ensures
        r == spec_diffuse_cell(cells@, temps@, *params, gs as int, i as int),
        r <= FRAC_ONE,
{
    if matches!(cells[i].voxel_type, VoxelType::Wall) {
        return temps[i];
    }
    let t0 = temps[i] as u64;
    let sum: u64 = neighbor_temp(cells, temps, gs, i, Direction::PosX) as u64
        + neighbor_temp(cells, temps, gs, i, Direction::NegX) as u64
        + neighbor_temp(cells, temps, gs, i, Direction::PosY) as u64
        + neighbor_temp(cells, temps, gs, i, Direction::NegY) as u64
        + neighbor_temp(cells, temps, gs, i, Direction::PosZ) as u64
        + neighbor_temp(cells, temps, gs, i, Direction::NegZ) as u64;
    let avg: u64 = sum / 6;
    let k = params.diffusion_rate as u64;
    proof {
        assert((FRAC_ONE as int - k as int) * t0 as int + k as int * avg as int
            <= FRAC_ONE as int * FRAC_ONE as int) by (nonlinear_arith)
            requires
                0 <= k as int <= FRAC_ONE as int
                && 0 <= t0 as int <= FRAC_ONE as int
                && 0 <= avg as int <= FRAC_ONE as int;
        assert(0 <= (FRAC_ONE as int - k as int) * t0 as int) by (nonlinear_arith)
            requires 0 <= k as int <= FRAC_ONE as int && 0 <= t0 as int;
        assert(0 <= k as int * avg as int) by (nonlinear_arith)
            requires 0 <= k as int && 0 <= avg as int;
    }
    let base: u64 = ((FRAC_ONE as u64 - k) * t0 + k * avg) / (FRAC_ONE as u64);
    let delta: u64 = (params.temp_sensitivity / 16) as u64;
    let v: u64 = if matches!(cells[i].voxel_type, VoxelType::HeatSource) {
        base + delta
    } else if matches!(cells[i].voxel_type, VoxelType::ColdSource) {
        if base >= delta { base - delta } else { 0 }
    } else {
        base
    };
    if v > FRAC_ONE as u64 {
        FRAC_ONE
    } else {
        v as u32
    }
}

/// Chebyshev ball membership: every coordinate within `r` of the center.
pub open spec fn spec_cheb_within(
    cx: int, cy: int, cz: int, x: int, y: int, z: int, r: int,
) -> bool {
    &&& cx - r <= x <= cx + r
    &&& cy - r <= y <= cy + r
    &&& cz - r <= z <= cz + r
}

/// The largest radius a command may touch.
pub const MAX_BRUSH_RADIUS: u32 = 5;

/// The energy a placed voxel of the given type starts with.
pub open spec fn spec_place_energy(t: VoxelType) -> u16 {
    match t {
        VoxelType::Nutrient => 200,
        VoxelType::EnergySource => 500,
        VoxelType::Protocell => 500,
        VoxelType::HeatSource => 1000,
        VoxelType::ColdSource => 1000,
        _ => 0,
    }
}

/// The voxel a `PlaceVoxel` command writes: the type named by the low byte
/// of the parameter, with that type's starting energy; a placed protocell
/// carries the all-zero genome and its species hash.
pub open spec fn spec_place_voxel(code: u32) -> Voxel {
    let t = spec_type_from_u8((code & 0xff) as u8);
    if t == VoxelType::Protocell {
        Voxel {
            voxel_type: t,
            energy: spec_place_energy(t),
            species_id: spec_species_id(spec_empty_voxel().genome),
            ..spec_empty_voxel()
        }
    } else {
        Voxel { voxel_type: t, energy: spec_place_energy(t), ..spec_empty_voxel() }
    }
}

/// Genome byte `j` of a protocell seeded by command at cell `i`: the
/// replication threshold and split ratio are fixed, the rest are random.
pub open spec fn spec_seed_byte(tick: u32, i: int, j: int) -> u8 {
    if j == 2 { 200u8 }
    else if j == 10 { 128u8 }
    else { (spec_rng32(tick, i as u32, (0x200 + j) as u32) & 0xff) as u8 }
}

/// The genome of a protocell seeded by command at cell `i`.
pub open spec fn spec_seed_genome(tick: u32, i: int) -> Genome {
    Genome { bytes: arr16_of(Seq::new(16, |j: int| spec_seed_byte(tick, i, j))) }
}

/// A protocell seeded by command at cell `i`.
pub open spec fn spec_seeded_protocell(tick: u32, i: int, energy: u16) -> Voxel {
    let g = spec_seed_genome(tick, i);
    Voxel {
        voxel_type: VoxelType::Protocell,
        energy,
        species_id: spec_species_id(g),
        genome: g,
        ..spec_empty_voxel()
    }
}

/// The damage a toxin of strength `p0` does through the cell's resistance.
pub open spec fn spec_toxin_damage(p0: u32, resistance: u8) -> u16 {
    (((p0 & 0xff) as int) * (255 - resistance as int) / 255) as u16
}

/// What a command leaves in cell `i`: cells outside the command's
/// Chebyshev ball (radius clamped to 5) are untouched; inside it, the
/// command's effect applies.
pub open spec fn spec_command_cell(
    cells: Seq<Voxel>, cmd: crate::commands::Command, params: SimParams,
    tick: u32, gs: int, i: int,
) -> Voxel {
    let x = grid_coord_x(i, gs);
    let y = grid_coord_y(i, gs);
    let z = grid_coord_z(i, gs);
    let r = spec_min_u32(cmd.radius, MAX_BRUSH_RADIUS) as int;
    let cur = cells[i];
    if !spec_cheb_within(cmd.x as int, cmd.y as int, cmd.z as int, x, y, z, r) {
        cur
    } else {
        match crate::commands::spec_command_from_u32(cmd.command_type) {
            crate::commands::CommandType::Noop => cur,
            crate::commands::CommandType::PlaceVoxel => spec_place_voxel(cmd.param_0),
            crate::commands::CommandType::RemoveVoxel => spec_empty_voxel(),
            crate::commands::CommandType::SeedProtocells => {
                if cur.voxel_type == VoxelType::Empty {
                    spec_seeded_protocell(
                        tick, i,
                        if cmd.param_0 <= 0xffff { cmd.param_0 as u16 } else { 0xffffu16 })
                } else {
                    cur
                }
            },
            crate::commands::CommandType::ApplyToxin => {
                if cur.voxel_type == VoxelType::Protocell {
                    let e = spec_sat_sub16(
                        cur.energy, spec_toxin_damage(cmd.param_0, cur.genome.bytes[6]));
                    if e == 0 {
                        spec_waste_voxel()
                    } else {
                        Voxel { energy: e, ..cur }
                    }
                } else {
                    cur
                }
            },
        }
    }
}

/// A command never touches a cell more than five steps away: outside the
/// Chebyshev ball of radius 5 around the command's center, every cell is
/// left exactly as it was, whatever radius the command asked for.
pub proof fn lemma_command_reach(
    cells: Seq<Voxel>, cmd: crate::commands::Command, params: SimParams,
    tick: u32, gs: int, i: int,
)
    requires
        !spec_cheb_within(
            cmd.x as int, cmd.y as int, cmd.z as int,
            grid_coord_x(i, gs), grid_coord_y(i, gs), grid_coord_z(i, gs), 5),
    ensures
        spec_command_cell(cells, cmd, params, tick, gs, i) == cells[i],
{
}

/// The whole command phase never reaches past five steps: a cell outside
/// the Chebyshev ball of radius 5 around every queued command's center is
/// left exactly as it was.
pub proof fn lemma_apply_commands_reach(
    cells: Seq<Voxel>, cmds: Seq<crate::commands::Command>, params: SimParams,
    tick: u32, gs: int, m: int, i: int,
)
    requires
        0 <= i < cells.len(),
        0 <= m <= cmds.len(),
        forall|c: int| 0 <= c < cmds.len() ==> !spec_cheb_within(
            (#[trigger] cmds[c]).x as int, cmds[c].y as int, cmds[c].z as int,
            grid_coord_x(i, gs), grid_coord_y(i, gs), grid_coord_z(i, gs), 5),
    ensures
        spec_apply_upto(cells, cmds, params, tick, gs, m)[i] == cells[i],
        spec_apply_upto(cells, cmds, params, tick, gs, m).len() == cells.len(),
    decreases m,
{
    if m > 0 {
        lemma_apply_commands_reach(cells, cmds, params, tick, gs, m - 1, i);
        let prev = spec_apply_upto(cells, cmds, params, tick, gs, m - 1);
        lemma_command_reach(prev, cmds[m - 1], params, tick, gs, i);
    }
}

/// Compute the genome of a command-seeded protocell.
#[verifier::rlimit(60)]
fn seed_genome(tick: u32, i: usize) -> (r: Genome)
    requires
        i < 0x1_0000_0000,
    ensures
        r == spec_seed_genome(tick, i as int),
{
    let bytes = [
        seed_byte(tick, i, 0), seed_byte(tick, i, 1),
        seed_byte(tick, i, 2), seed_byte(tick, i, 3),
        seed_byte(tick, i, 4), seed_byte(tick, i, 5),
        seed_byte(tick, i, 6), seed_byte(tick, i, 7),
        seed_byte(tick, i, 8), seed_byte(tick, i, 9),
        seed_byte(tick, i, 10), seed_byte(tick, i, 11),
        seed_byte(tick, i, 12), seed_byte(tick, i, 13),
        seed_byte(tick, i, 14), seed_byte(tick, i, 15),
    ];
    let r = Genome { bytes };
    proof {
        let target = Seq::new(16, |j: int| spec_seed_byte(tick, i as int, j));
        lemma_arr16_of_view(target);
        assert(r.bytes@ =~= target);
        assert(r.bytes =~= arr16_of(target));
    }
    r
}

/// Compute one genome byte of a command-seeded protocell.
fn seed_byte(tick: u32, i: usize, j: usize) -> (r: u8)
    requires
        j < 16,
        i < 0x1_0000_0000,
    ensures
        r == spec_seed_byte(tick, i as int, j as int),
{
    if j == 2 {
        200
    } else if j == 10 {
        128
    } else {
        (rng32(tick, i as u32, 0x200 + j as u32) & 0xff) as u8
    }
}

/// Compute what a command leaves in cell `i`.
#[verifier::rlimit(80)]
pub fn command_cell(
    cells: &Vec<Voxel>, cmd: &crate::commands::Command, params: &SimParams,
    tick: u32, gs: u32, i: usize,
) -> (r: Voxel)
    requires
        sim_grid_size_ok(gs as int),
        cells@.len() == gs as int * gs as int * gs as int,
        i < cells@.len(),
        params.wf(),
    ensures
        r == spec_command_cell(cells@, *cmd, *params, tick, gs as int, i as int),
{
    proof {
        assert(gs as int * gs as int * gs as int <= 0x1_0000_0000) by (nonlinear_arith)
            requires 1 <= gs as int <= 256;
    }
    let (x, y, z) = grid_coords(i, gs);
    let r = min_u32(cmd.radius, MAX_BRUSH_RADIUS);
    let cur = cells[i];
    let inside = (cmd.x as i64 - r as i64 <= x as i64 && x as i64 <= cmd.x as i64 + r as i64)
        && (cmd.y as i64 - r as i64 <= y as i64 && y as i64 <= cmd.y as i64 + r as i64)
        && (cmd.z as i64 - r as i64 <= z as i64 && z as i64 <= cmd.z as i64 + r as i64);
    if !inside {
        return cur;
    }
    match crate::commands::CommandType::from_u32(cmd.command_type) {
        crate::commands::CommandType::Noop => cur,
        crate::commands::CommandType::PlaceVoxel => place_voxel(cmd.param_0),
        crate::commands::CommandType::RemoveVoxel => Voxel::empty(),
        crate::commands::CommandType::SeedProtocells => {
            if matches!(cur.voxel_type, VoxelType::Empty) {
                let energy: u16 = if cmd.param_0 <= 0xffff { cmd.param_0 as u16 } else { 0xffff };
                let g = seed_genome(tick, i);
                let mut v = Voxel::empty();
                v.voxel_type = VoxelType::Protocell;
                v.energy = energy;
                v.species_id = g.species_id();
                v.genome = g;
                v
            } else {
                cur
            }
        },
        crate::commands::CommandType::ApplyToxin => {
            if matches!(cur.voxel_type, VoxelType::Protocell) {
                let e = sat_sub16(cur.energy, toxin_damage(cmd.param_0, cur.genome.toxin_resistance()));
                if e == 0 {
                    make_waste()
                } else {
                    Voxel { energy: e, ..cur }
                }
            } else {
                cur
            }
        },
    }
}

/// Compute a toxin's damage.
fn toxin_damage(p0: u32, resistance: u8) -> (r: u16)
    ensures
        r == spec_toxin_damage(p0, resistance),
{
    proof {
        assert(((p0 & 0xff) as int) <= 255) by (bit_vector);
        assert(((p0 & 0xff) as int) * (255 - resistance as int) / 255 <= 255)
            by (nonlinear_arith)
            requires 0 <= ((p0 & 0xff) as int) <= 255 && 0 <= resistance as int <= 255;
        assert(0 <= ((p0 & 0xff) as int) * (255 - resistance as int) / 255)
            by (nonlinear_arith)
            requires 0 <= ((p0 & 0xff) as int) && 0 <= resistance as int <= 255;
    }
    (((p0 & 0xff) * (255 - resistance as u32)) / 255) as u16
}

/// Build the voxel a `PlaceVoxel` command writes.
fn place_voxel(code: u32) -> (r: Voxel)
    ensures
        r == spec_place_voxel(code),
{
    let t = VoxelType::from_u8((code & 0xff) as u8);
    let energy: u16 = match t {
        VoxelType::Nutrient => 200,
        VoxelType::EnergySource => 500,
        VoxelType::Protocell => 500,
        VoxelType::HeatSource => 1000,
        VoxelType::ColdSource => 1000,
        _ => 0,
    };
    let mut v = Voxel::empty();
    v.voxel_type = t;
    v.energy = energy;
    if matches!(t, VoxelType::Protocell) {
        v.species_id = v.genome.species_id();
    }
    v
}


/// The intent buffer after the first `s` cells have declared: starting
/// from all `NoAction`, each protocell's word joins its target cell by the
/// monotonic max combine.
pub open spec fn spec_intents_upto(
    cells: Seq<Voxel>, params: SimParams, tick: u32, gs: int, s: int,
) -> Seq<u32>
    decreases s,
{
    if s <= 0 {
        Seq::new(cells.len(), |k: int| 0u32)
    } else {
        let prev = spec_intents_upto(cells, params, tick, gs, s - 1);
        match spec_intent_of(cells, params, tick, gs, s - 1) {
            Some((t, w)) => prev.update(t, crate::intent::spec_intent_combine(prev[t], w)),
            None => prev,
        }
    }
}

/// The full intent buffer of a grid.
pub open spec fn spec_intents(cells: Seq<Voxel>, params: SimParams, tick: u32, gs: int) -> Seq<u32> {
    spec_intents_upto(cells, params, tick, gs, cells.len() as int)
}

/// A successful neighborhood scan names a valid cell index.
pub proof fn lemma_scan_target_in_range(
    cells: Seq<Voxel>, gs: int, i: int, start: int, kind: ScanKind, own_species: u16,
)
    requires
        sim_grid_size_ok(gs),
        cells.len() == gs * gs * gs,
        0 <= i < cells.len(),
    ensures
        spec_scan_neighbors(cells, gs, i, start, kind, own_species) is Some
            ==> 0 <= spec_scan_neighbors(cells, gs, i, start, kind, own_species).unwrap().0
                < cells.len(),
{
    lemma_neighbor_index_in_range(i, Direction::PosX, gs);
    lemma_neighbor_index_in_range(i, Direction::NegX, gs);
    lemma_neighbor_index_in_range(i, Direction::PosY, gs);
    lemma_neighbor_index_in_range(i, Direction::NegY, gs);
    lemma_neighbor_index_in_range(i, Direction::PosZ, gs);
    lemma_neighbor_index_in_range(i, Direction::NegZ, gs);
    lemma_neighbor_index_in_range(i, Direction::Self_, gs);
}

/// The target of a declared intent is a valid cell index.
pub proof fn lemma_intent_target_in_range(
    cells: Seq<Voxel>, params: SimParams, tick: u32, gs: int, i: int,
)
    requires
        sim_grid_size_ok(gs),
        cells.len() == gs * gs * gs,
        0 <= i < cells.len(),
    ensures
        spec_intent_of(cells, params, tick, gs, i) is Some
            ==> 0 <= spec_intent_of(cells, params, tick, gs, i).unwrap().0 < cells.len(),
{
    let r = spec_rng32(tick, i as u32, 0);
    let start = (r % 6) as int;
    let sid = cells[i].species_id;
    lemma_scan_target_in_range(cells, gs, i, start, ScanKind::EmptyCell, sid);
    lemma_scan_target_in_range(cells, gs, i, start, ScanKind::Prey, sid);
    lemma_scan_target_in_range(cells, gs, i, start, ScanKind::NutrientCell, sid);
}

/// Declaring intents never changes the buffer's length.
pub proof fn lemma_intents_upto_len(
    cells: Seq<Voxel>, params: SimParams, tick: u32, gs: int, s: int,
)
    requires
        sim_grid_size_ok(gs),
        cells.len() == gs * gs * gs,
        s <= cells.len(),
    ensures
        spec_intents_upto(cells, params, tick, gs, s).len() == cells.len(),
    decreases s,
{
    if s > 0 {
        lemma_intents_upto_len(cells, params, tick, gs, s - 1);
        lemma_intent_target_in_range(cells, params, tick, gs, s - 1);
    }
}

/// Run the intent declaration phase: clear the buffer, then let every
/// protocell declare one word at its target, contention resolved by max.
pub fn declare_intents_grid(
    cells: &Vec<Voxel>, params: &SimParams, tick: u32, gs: u32,
) -> (r: Vec<u32>)
    requires
        sim_grid_size_ok(gs as int),
        cells@.len() == gs as int * gs as int * gs as int,
    ensures
        r@ == spec_intents(cells@, *params, tick, gs as int),
        r@.len() == cells@.len(),
{
    let n = cells.len();
    let mut intents: Vec<u32> = Vec::new();
    let mut k: usize = 0;
    while k < n
        invariant
            0 <= k <= n,
            intents@.len() == k,
            forall|m: int| 0 <= m < k ==> #[trigger] intents@[m] == 0u32,
        decreases n - k,
    {
        intents.push(0);
        k += 1;
    }
    proof {
        assert(intents@ =~= Seq::new(cells@.len(), |m: int| 0u32));
    }
    let mut s: usize = 0;
    while s < n
        invariant
            sim_grid_size_ok(gs as int),
            cells@.len() == gs as int * gs as int * gs as int,
            n == cells@.len(),
            0 <= s <= n,
            intents@ == spec_intents_upto(cells@, *params, tick, gs as int, s as int),
            intents@.len() == n,
        decreases n - s,
    {
        proof {
            lemma_intents_upto_len(cells@, *params, tick, gs as int, s as int + 1);
        }
        match intent_of(cells, params, tick, gs, s) {
            Some((t, w)) => {
                let combined = crate::intent::intent_combine(intents[t], w);
                intents.set(t, combined);
            },
            None => {},
        }
        s += 1;
    }
    intents
}

/// Run the resolve phase: every cell's next state from the read grid and
/// the winning intent that targets it.
pub fn resolve_grid(
    cells: &Vec<Voxel>, intents: &Vec<u32>, params: &SimParams, tick: u32, gs: u32,
) -> (r: Vec<Voxel>)
    requires
        sim_grid_size_ok(gs as int),
        cells@.len() == gs as int * gs as int * gs as int,
        intents@.len() == cells@.len(),
        params.wf(),
    ensures
        r@.len() == cells@.len(),
        forall|i: int| 0 <= i < cells@.len() ==> #[trigger] r@[i]
            == spec_resolve_cell(cells@, intents@, *params, tick, gs as int, i),
{
    let n = cells.len();
    let mut out: Vec<Voxel> = Vec::new();
    let mut i: usize = 0;
    while i < n
        invariant
            sim_grid_size_ok(gs as int),
            cells@.len() == gs as int * gs as int * gs as int,
            intents@.len() == cells@.len(),
            params.wf(),
            n == cells@.len(),
            0 <= i <= n,
            out@.len() == i,
            forall|m: int| 0 <= m < i ==> #[trigger] out@[m]
                == spec_resolve_cell(cells@, intents@, *params, tick, gs as int, m),
        decreases n - i,
    {
        let v = resolve_cell(cells, intents, params, tick, gs, i);
        out.push(v);
        i += 1;
    }
    out
}

/// Run the temperature diffusion phase into a fresh field.
pub fn diffuse_grid(
    cells: &Vec<Voxel>, temps: &Vec<u32>, params: &SimParams, gs: u32,
) -> (r: Vec<u32>)
    requires
        sim_grid_size_ok(gs as int),
        cells@.len() == gs as int * gs as int * gs as int,
        temps@.len() == cells@.len(),
        temps_ok(temps@),
        params.wf(),
    ensures
        r@.len() == cells@.len(),
        forall|i: int| 0 <= i < cells@.len() ==> #[trigger] r@[i]
            == spec_diffuse_cell(cells@, temps@, *params, gs as int, i),
        temps_ok(r@),
{
    let n = cells.len();
    let mut out: Vec<u32> = Vec::new();
    let mut i: usize = 0;
    while i < n
        invariant
            sim_grid_size_ok(gs as int),
            cells@.len() == gs as int * gs as int * gs as int,
            temps@.len() == cells@.len(),
            temps_ok(temps@),
            params.wf(),
            n == cells@.len(),
            0 <= i <= n,
            out@.len() == i,
            forall|m: int| 0 <= m < i ==> #[trigger] out@[m]
                == spec_diffuse_cell(cells@, temps@, *params, gs as int, m),
            forall|m: int| 0 <= m < i ==> #[trigger] out@[m] <= FRAC_ONE,
        decreases n - i,
    {
        let t = diffuse_cell(cells, temps, params, gs, i);
        out.push(t);
        i += 1;
    }
    out
}

/// On an all-wall grid, temperature diffusion changes nothing: walls are
/// insulators and keep their temperature exactly.
pub proof fn lemma_diffusion_all_walls(
    cells: Seq<Voxel>, temps: Seq<u32>, params: SimParams, gs: int,
)
    requires
        forall|i: int| 0 <= i < cells.len()
            ==> (#[trigger] cells[i]).voxel_type == VoxelType::Wall,
    ensures
        forall|i: int| 0 <= i < cells.len()
            ==> #[trigger] spec_diffuse_cell(cells, temps, params, gs, i) == temps[i],
{
}

/// The grid after one command: every cell inside the command's ball takes
/// its effect.
pub open spec fn spec_apply_one(
    cells: Seq<Voxel>, cmd: crate::commands::Command, params: SimParams, tick: u32, gs: int,
) -> Seq<Voxel> {
    Seq::new(cells.len(), |i: int| spec_command_cell(cells, cmd, params, tick, gs, i))
}

/// The grid after the first `m` commands, applied in order.
pub open spec fn spec_apply_upto(
    cells: Seq<Voxel>, cmds: Seq<crate::commands::Command>, params: SimParams,
    tick: u32, gs: int, m: int,
) -> Seq<Voxel>
    decreases m,
{
    if m <= 0 {
        cells
    } else {
        spec_apply_one(
            spec_apply_upto(cells, cmds, params, tick, gs, m - 1),
            cmds[m - 1], params, tick, gs)
    }
}

/// The grid after command application: the first 64 queued commands apply
/// in order; the rest are silently dropped.
pub open spec fn spec_apply_commands(
    cells: Seq<Voxel>, cmds: Seq<crate::commands::Command>, params: SimParams,
    tick: u32, gs: int,
) -> Seq<Voxel> {
    spec_apply_upto(cells, cmds, params, tick, gs,
        crate::commands::spec_upload_count(cmds.len() as int))
}

/// Applying commands never changes the grid's length.
pub proof fn lemma_apply_upto_len(
    cells: Seq<Voxel>, cmds: Seq<crate::commands::Command>, params: SimParams,
    tick: u32, gs: int, m: int,
)
    ensures
        spec_apply_upto(cells, cmds, params, tick, gs, m).len() == cells.len(),
    decreases m,
{
    if m > 0 {
        lemma_apply_upto_len(cells, cmds, params, tick, gs, m - 1);
    }
}

/// Run the command phase: apply the first 64 queued commands in order to
/// the read grid; the rest are silently dropped.
pub fn apply_commands_grid(
    cells: &Vec<Voxel>, cmds: &Vec<crate::commands::Command>, params: &SimParams,
    tick: u32, gs: u32,
) -> (r: Vec<Voxel>)
    requires
        sim_grid_size_ok(gs as int),
        cells@.len() == gs as int * gs as int * gs as int,
        params.wf(),
    ensures
        r@ == spec_apply_commands(cells@, cmds@, *params, tick, gs as int),
        r@.len() == cells@.len(),
{
    let n = cells.len();
    let count: usize = if cmds.len() <= crate::commands::MAX_COMMANDS {
        cmds.len()
    } else {
        crate::commands::MAX_COMMANDS
    };
    let mut cur: Vec<Voxel> = Vec::new();
    let mut i: usize = 0;
    while i < n
        invariant
            0 <= i <= n,
            n == cells@.len(),
            cur@.len() == i,
            forall|k: int| 0 <= k < i ==> #[trigger] cur@[k] == cells@[k],
        decreases n - i,
    {
        cur.push(cells[i]);
        i += 1;
    }
    proof {
        assert(cur@ =~= cells@);
        assert(cur@ =~= spec_apply_upto(cells@, cmds@, *params, tick, gs as int, 0));
    }
    let mut m: usize = 0;
    while m < count
        invariant
            sim_grid_size_ok(gs as int),
            cells@.len() == gs as int * gs as int * gs as int,
            params.wf(),
            n == cells@.len(),
            count == crate::commands::spec_upload_count(cmds@.len() as int),
            count <= cmds@.len(),
            0 <= m <= count,
            cur@ == spec_apply_upto(cells@, cmds@, *params, tick, gs as int, m as int),
            cur@.len() == n,
        decreases count - m,
    {
        proof {
            lemma_apply_upto_len(cells@, cmds@, *params, tick, gs as int, m as int);
        }
        let cmd = cmds[m];
        let mut next: Vec<Voxel> = Vec::new();
        let mut i: usize = 0;
        while i < n
            invariant
                sim_grid_size_ok(gs as int),
                params.wf(),
                n == gs as int * gs as int * gs as int,
                cur@.len() == n,
                0 <= i <= n,
                next@.len() == i,
                forall|k: int| 0 <= k < i ==> #[trigger] next@[k]
                    == spec_command_cell(cur@, cmd, *params, tick, gs as int, k),
            decreases n - i,
        {
            let v = command_cell(&cur, &cmd, params, tick, gs, i);
            next.push(v);
            i += 1;
        }
        proof {
            assert(next@ =~= spec_apply_one(cur@, cmd, *params, tick, gs as int));
        }
        cur = next;
        m += 1;
    }
    cur
}


/// Protocells among the first `n` cells.
pub open spec fn spec_population(cells: Seq<Voxel>, n: int) -> int
    decreases n,
{
    if n <= 0 {
        0
    } else {
        spec_population(cells, n - 1)
            + if cells[n - 1].voxel_type == VoxelType::Protocell { 1int } else { 0int }
    }
}

/// Total energy of the protocells among the first `n` cells.
pub open spec fn spec_total_energy(cells: Seq<Voxel>, n: int) -> int
    decreases n,
{
    if n <= 0 {
        0
    } else {
        spec_total_energy(cells, n - 1)
            + if cells[n - 1].voxel_type == VoxelType::Protocell {
                cells[n - 1].energy as int
            } else {
                0int
            }
    }
}

/// Largest protocell energy among the first `n` cells; 0 when there is none.
pub open spec fn spec_max_energy(cells: Seq<Voxel>, n: int) -> int
    decreases n,
{
    if n <= 0 {
        0
    } else {
        let prev = spec_max_energy(cells, n - 1);
        if cells[n - 1].voxel_type == VoxelType::Protocell
            && cells[n - 1].energy as int > prev {
            cells[n - 1].energy as int
        } else {
            prev
        }
    }
}

/// First histogram slot holding the species, or the length when absent.
pub open spec fn spec_find_sid_from(h: Seq<(u16, u32)>, sid: u16, k: int) -> int
    decreases h.len() - k,
{
    if k < 0 || k >= h.len() {
        h.len() as int
    } else if h[k].0 == sid {
        k
    } else {
        spec_find_sid_from(h, sid, k + 1)
    }
}

/// One protocell joins the species histogram: its species' count rises, or
/// a new slot opens while fewer than 12 are taken; past 12 species the
/// tail is silently dropped.
pub open spec fn spec_hist_add(h: Seq<(u16, u32)>, sid: u16) -> Seq<(u16, u32)> {
    let k = spec_find_sid_from(h, sid, 0);
    if k < h.len() {
        h.update(k, (sid, (h[k].1 + 1) as u32))
    } else if h.len() < 12 {
        h.push((sid, 1))
    } else {
        h
    }
}

/// The species histogram of the first `n` cells, in order of first
/// appearance.
pub open spec fn spec_hist(cells: Seq<Voxel>, n: int) -> Seq<(u16, u32)>
    decreases n,
{
    if n <= 0 {
        Seq::empty()
    } else {
        let prev = spec_hist(cells, n - 1);
        if cells[n - 1].voxel_type == VoxelType::Protocell {
            spec_hist_add(prev, cells[n - 1].species_id)
        } else {
            prev
        }
    }
}

/// A search that has missed a prefix starts as well from its end.
proof fn lemma_find_sid_prefix(h: Seq<(u16, u32)>, sid: u16, j: int)
    requires
        0 <= j <= h.len(),
        forall|m: int| 0 <= m < j ==> (#[trigger] h[m]).0 != sid,
    ensures
        spec_find_sid_from(h, sid, 0) == spec_find_sid_from(h, sid, j),
    decreases j,
{
    if j > 0 {
        lemma_find_sid_prefix(h.subrange(0, 0), sid, 0);
        lemma_find_sid_step(h, sid, j - 1);
        lemma_find_sid_prefix(h, sid, j - 1);
    }
}

/// A search that misses slot `k` continues at `k + 1`.
proof fn lemma_find_sid_step(h: Seq<(u16, u32)>, sid: u16, k: int)
    requires
        0 <= k < h.len(),
        h[k].0 != sid,
    ensures
        spec_find_sid_from(h, sid, k) == spec_find_sid_from(h, sid, k + 1),
{
}

/// A slot search lands inside the histogram or just past its end.
proof fn lemma_find_sid_bounds(h: Seq<(u16, u32)>, sid: u16, k: int)
    requires
        0 <= k <= h.len(),
    ensures
        k <= spec_find_sid_from(h, sid, k) <= h.len(),
    decreases h.len() - k,
{
    if k < h.len() && h[k].0 != sid {
        lemma_find_sid_bounds(h, sid, k + 1);
    }
}

/// The histogram never outgrows its 12 slots, and every count stays below
/// the number of cells scanned.
proof fn lemma_hist_bounds(cells: Seq<Voxel>, n: int)
    requires
        0 <= n,
    ensures
        spec_hist(cells, n).len() <= 12,
        forall|k: int| 0 <= k < spec_hist(cells, n).len()
            ==> (#[trigger] spec_hist(cells, n)[k]).1 as int <= n,
    decreases n,
{
    if n > 0 {
        lemma_hist_bounds(cells, n - 1);
        let prev = spec_hist(cells, n - 1);
        if cells[n - 1].voxel_type == VoxelType::Protocell {
            let sid = cells[n - 1].species_id;
            lemma_find_sid_bounds(prev, sid, 0);
            let f = spec_find_sid_from(prev, sid, 0);
            let h = spec_hist(cells, n);
            if f < prev.len() {
                assert(h == prev.update(f, (sid, (prev[f].1 + 1) as u32)));
                assert forall|k: int| 0 <= k < h.len()
                    implies (#[trigger] h[k]).1 as int <= n by {
                    if k != f {
                        assert(h[k] == prev[k]);
                    }
                }
            } else if prev.len() < 12 {
                assert(h == prev.push((sid, 1u32)));
                assert forall|k: int| 0 <= k < h.len()
                    implies (#[trigger] h[k]).1 as int <= n by {
                    if k < prev.len() {
                        assert(h[k] == prev[k]);
                    }
                }
            }
        }
    }
}

/// Find the slot of a species in the histogram, or the length when absent.
fn find_sid(h: &Vec<(u16, u32)>, sid: u16) -> (r: usize)
    ensures
        r == spec_find_sid_from(h@, sid, 0),
        r <= h@.len(),
{
    let mut j: usize = 0;
    while j < h.len()
        invariant
            0 <= j <= h@.len(),
            forall|m: int| 0 <= m < j ==> (#[trigger] h@[m]).0 != sid,
        decreases h@.len() - j,
    {
        if h[j].0 == sid {
            proof {
                lemma_find_sid_prefix(h@, sid, j as int);
            }
            return j;
        }
        j += 1;
    }
    proof {
        lemma_find_sid_prefix(h@, sid, h@.len() as int);
    }
    h.len()
}

/// Reduce a grid to its statistics: protocell count, their total energy
/// (saturating at the 32-bit limit), the largest single energy, and the
/// species histogram of the first 12 species encountered, with the species
/// count taken from the histogram.
pub fn grid_stats(cells: &Vec<Voxel>) -> (r: crate::stats::SimStats)
    requires
        cells@.len() < 0x1_0000_0000,
    ensures
        r.population as int == spec_population(cells@, cells@.len() as int),
        r.total_energy as int == if spec_total_energy(cells@, cells@.len() as int)
            <= u32::MAX as int {
            spec_total_energy(cells@, cells@.len() as int)
        } else {
            u32::MAX as int
        },
        r.max_energy as int == spec_max_energy(cells@, cells@.len() as int),
        r.species_histogram@ == spec_hist(cells@, cells@.len() as int),
        r.species_count == r.species_histogram@.len(),
{
    let n = cells.len();
    let mut population: u32 = 0;
    let mut total: u64 = 0;
    let mut max_e: u16 = 0;
    let mut hist: Vec<(u16, u32)> = Vec::new();
    let mut i: usize = 0;
    while i < n
        invariant
            n == cells@.len(),
            n < 0x1_0000_0000,
            0 <= i <= n,
            population as int == spec_population(cells@, i as int),
            population as int <= i as int,
            total as int == spec_total_energy(cells@, i as int),
            total as int <= i as int * 0x10000,
            max_e as int == spec_max_energy(cells@, i as int),
            hist@ == spec_hist(cells@, i as int),
            hist@.len() <= 12,
            forall|k: int| 0 <= k < hist@.len()
                ==> (#[trigger] hist@[k]).1 as int <= i as int,
        decreases n - i,
    {
        let v = &cells[i];
        if matches!(v.voxel_type, VoxelType::Protocell) {
            proof {
                assert((i as int + 1) * 0x10000 == i as int * 0x10000 + 0x10000)
                    by (nonlinear_arith);
            }
            population = population + 1;
            total = total + v.energy as u64;
            if v.energy > max_e {
                max_e = v.energy;
            }
            let sid = v.species_id;
            let slot = find_sid(&hist, sid);
            if slot < hist.len() {
                let count = hist[slot].1;
                hist.set(slot, (sid, count + 1));
            } else if hist.len() < 12 {
                hist.push((sid, 1));
            }
        } else {
            proof {
                assert((i as int + 1) * 0x10000 == i as int * 0x10000 + 0x10000)
                    by (nonlinear_arith);
            }
        }
        i += 1;
    }
    let total_energy: u32 = if total <= u32::MAX as u64 { total as u32 } else { u32::MAX };
    let species_count = hist.len() as u32;
    crate::stats::SimStats {
        population,
        total_energy,
        species_count,
        max_energy: max_e as u32,
        species_histogram: hist,
    }
}


/// Protocell well-formedness: every living cell carries the species hash
/// of its genome, which is never zero.
pub open spec fn protocells_ok(cells: Seq<Voxel>) -> bool {
    forall|i: int| 0 <= i < cells.len()
        && (#[trigger] cells[i]).voxel_type == VoxelType::Protocell
        ==> cells[i].species_id == spec_species_id(cells[i].genome)
}

/// A command writes only well-formed protocells: placements and seeds
/// carry the hash of the genome they carry, and a toxin leaves genome and
/// species alone.
pub proof fn lemma_command_cell_keeps_protocells_ok(
    cells: Seq<Voxel>, cmd: crate::commands::Command, params: SimParams,
    tick: u32, gs: int, i: int,
)
    requires
        0 <= i < cells.len(),
        cells[i].voxel_type == VoxelType::Protocell
            ==> cells[i].species_id == spec_species_id(cells[i].genome),
    ensures
        ({
            let r = spec_command_cell(cells, cmd, params, tick, gs, i);
            r.voxel_type == VoxelType::Protocell
                ==> r.species_id == spec_species_id(r.genome)
        }),
{
}

/// The resolve phase writes only well-formed protocells: movers, predators
/// and parents keep their genome and species, children take the hash of
/// their freshly rolled genome, and deaths write no protocell at all.
pub proof fn lemma_resolve_cell_keeps_protocells_ok(
    cells: Seq<Voxel>, intents: Seq<u32>, params: SimParams, tick: u32, gs: int, i: int,
)
    requires
        sim_grid_size_ok(gs),
        cells.len() == gs * gs * gs,
        intents.len() == cells.len(),
        0 <= i < cells.len(),
        protocells_ok(cells),
    ensures
        ({
            let r = spec_resolve_cell(cells, intents, params, tick, gs, i);
            r.voxel_type == VoxelType::Protocell
                ==> r.species_id == spec_species_id(r.genome)
        }),
{
    let w = intents[i];
    let d = spec_intent_direction(w);
    lemma_neighbor_index_in_range(i, spec_opposite(d), gs);
}


/// Cells of one type among the first `n`.
pub open spec fn spec_count_type(cells: Seq<Voxel>, t: VoxelType, n: int) -> int
    decreases n,
{
    if n <= 0 {
        0
    } else {
        spec_count_type(cells, t, n - 1)
            + if cells[n - 1].voxel_type == t { 1int } else { 0int }
    }
}

/// The census identity: every cell is of exactly one type, so the counts
/// of the eight types sum to the grid's cell count.
pub proof fn lemma_type_counts_partition(cells: Seq<Voxel>, n: int)
    requires
        0 <= n <= cells.len(),
    ensures
        spec_count_type(cells, VoxelType::Empty, n)
            + spec_count_type(cells, VoxelType::Wall, n)
            + spec_count_type(cells, VoxelType::Nutrient, n)
            + spec_count_type(cells, VoxelType::EnergySource, n)
            + spec_count_type(cells, VoxelType::Protocell, n)
            + spec_count_type(cells, VoxelType::Waste, n)
            + spec_count_type(cells, VoxelType::HeatSource, n)
            + spec_count_type(cells, VoxelType::ColdSource, n) == n,
    decreases n,
{
    if n > 0 {
        lemma_type_counts_partition(cells, n - 1);
    }
}

/// The population statistic counts exactly the protocell cells.
pub proof fn lemma_population_is_protocell_count(cells: Seq<Voxel>, n: int)
    requires
        0 <= n,
    ensures
        spec_population(cells, n) == spec_count_type(cells, VoxelType::Protocell, n),
    decreases n,
{
    if n > 0 {
        lemma_population_is_protocell_count(cells, n - 1);
    }
}


/// A grid with no living cells.
pub open spec fn no_protocells(cells: Seq<Voxel>) -> bool {
    forall|i: int| 0 <= i < cells.len()
        ==> (#[trigger] cells[i]).voxel_type != VoxelType::Protocell
}

/// No spontaneous generation: on a grid without protocells, the resolve
/// phase writes none. Movers, predators and parents all need a living
/// source cell; empty cells spawn at most nutrients, and waste decays into
/// nutrients.
pub proof fn lemma_resolve_cell_no_spontaneous(
    cells: Seq<Voxel>, intents: Seq<u32>, params: SimParams, tick: u32, gs: int, i: int,
)
    requires
        sim_grid_size_ok(gs),
        cells.len() == gs * gs * gs,
        intents.len() == cells.len(),
        0 <= i < cells.len(),
        no_protocells(cells),
    ensures
        spec_resolve_cell(cells, intents, params, tick, gs, i).voxel_type
            != VoxelType::Protocell,
{
    let w = intents[i];
    let d = spec_intent_direction(w);
    lemma_neighbor_index_in_range(i, spec_opposite(d), gs);
}

/// A population of zero is the same as having no protocells at all.
pub proof fn lemma_population_zero_iff_none(cells: Seq<Voxel>, n: int)
    requires
        0 <= n <= cells.len(),
    ensures
        (spec_population(cells, n) == 0) <==> (forall|i: int| 0 <= i < n
            ==> (#[trigger] cells[i]).voxel_type != VoxelType::Protocell),
    decreases n,
{
    if n > 0 {
        lemma_population_zero_iff_none(cells, n - 1);
        lemma_population_nonneg(cells, n - 1);
    }
}

/// The population count is never negative.
pub proof fn lemma_population_nonneg(cells: Seq<Voxel>, n: int)
    ensures
        spec_population(cells, n) >= 0,
    decreases n,
{
    if n > 0 {
        lemma_population_nonneg(cells, n - 1);
    }
}


/// Whether a command can write a protocell: a seed command, or a placement
/// whose type parameter names the protocell tag.
pub open spec fn spec_command_spawns_protocell(cmd: crate::commands::Command) -> bool {
    ||| crate::commands::spec_command_from_u32(cmd.command_type)
        == crate::commands::CommandType::SeedProtocells
    ||| (crate::commands::spec_command_from_u32(cmd.command_type)
        == crate::commands::CommandType::PlaceVoxel
        && spec_type_from_u8((cmd.param_0 & 0xff) as u8) == VoxelType::Protocell)
}

/// A command that cannot spawn a protocell writes none into a cell that
/// held none.
pub proof fn lemma_command_cell_no_spontaneous(
    cells: Seq<Voxel>, cmd: crate::commands::Command, params: SimParams,
    tick: u32, gs: int, i: int,
)
    requires
        0 <= i < cells.len(),
        !spec_command_spawns_protocell(cmd),
        cells[i].voxel_type != VoxelType::Protocell,
    ensures
        spec_command_cell(cells, cmd, params, tick, gs, i).voxel_type != VoxelType::Protocell,
{
}

/// The whole command phase spawns no protocell when no queued command can.
pub proof fn lemma_apply_upto_no_spontaneous(
    cells: Seq<Voxel>, cmds: Seq<crate::commands::Command>, params: SimParams,
    tick: u32, gs: int, m: int,
)
    requires
        no_protocells(cells),
        forall|c: int| 0 <= c < cmds.len()
            ==> !spec_command_spawns_protocell(#[trigger] cmds[c]),
        0 <= m <= cmds.len(),
    ensures
        no_protocells(spec_apply_upto(cells, cmds, params, tick, gs, m)),
        spec_apply_upto(cells, cmds, params, tick, gs, m).len() == cells.len(),
    decreases m,
{
    if m > 0 {
        lemma_apply_upto_no_spontaneous(cells, cmds, params, tick, gs, m - 1);
        let prev = spec_apply_upto(cells, cmds, params, tick, gs, m - 1);
        let cur = spec_apply_one(prev, cmds[m - 1], params, tick, gs);
        assert forall|i: int| 0 <= i < cur.len()
            implies (#[trigger] cur[i]).voxel_type != VoxelType::Protocell by {
            lemma_command_cell_no_spontaneous(prev, cmds[m - 1], params, tick, gs, i);
        }
    }
}

} // verus!
