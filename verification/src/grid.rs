//! Dense grid index arithmetic.
//!
//! A grid of edge length `grid_size` stores its voxels linearly with
//! `index(x, y, z) = z * grid_size^2 + y * grid_size + x`. The Von Neumann
//! neighborhood of a cell is the set of six face-adjacent offsets.

use vstd::prelude::*;
use vstd::arithmetic::div_mod::{
    lemma_fundamental_div_mod_converse_div, lemma_fundamental_div_mod_converse_mod,
};

verus! {

/// Linear index of the voxel at `(x, y, z)` in a dense grid of edge `gs`.
pub open spec fn grid_index_spec(x: int, y: int, z: int, gs: int) -> int {
    z * gs * gs + y * gs + x
}

/// The x coordinate recovered from a linear index.
pub open spec fn grid_coord_x(index: int, gs: int) -> int {
    index % gs
}

/// The y coordinate recovered from a linear index.
pub open spec fn grid_coord_y(index: int, gs: int) -> int {
    (index / gs) % gs
}

/// The z coordinate recovered from a linear index.
pub open spec fn grid_coord_z(index: int, gs: int) -> int {
    index / (gs * gs)
}

/// A grid edge small enough that every linear index fits in a `u32`.
pub open spec fn grid_size_fits(gs: int) -> bool {
    0 < gs && gs * gs * gs <= 0x1_0000_0000
}

/// Convert 3D coordinates to the linear buffer index.
pub fn grid_index(x: u32, y: u32, z: u32, grid_size: u32) -> (r: usize)
    requires
        grid_size_fits(grid_size as int),
        x < grid_size,
        y < grid_size,
        z < grid_size,
    ensures
        r == grid_index_spec(x as int, y as int, z as int, grid_size as int),
        r < grid_size as int * grid_size as int * grid_size as int,
{
    proof {
        let g = grid_size as int;
        assert(z * g * g + y * g + x < g * g * g) by (nonlinear_arith)
            requires (x as int) < g && (y as int) < g && (z as int) < g && 0 < g;
        assert(z * g * g <= z * g * g + y * g + x) by (nonlinear_arith)
            requires 0 <= (x as int) && 0 <= (y as int) && 0 <= (z as int) && 0 < g;
        assert(z * g <= z * g * g) by (nonlinear_arith)
            requires 0 <= (z as int) && 0 < g;
    }
    (z * grid_size * grid_size + y * grid_size + x) as usize
}

/// Convert a linear buffer index back to 3D coordinates.
pub fn grid_coords(index: usize, grid_size: u32) -> (r: (u32, u32, u32))
    requires
        grid_size_fits(grid_size as int),
        index < grid_size as int * grid_size as int * grid_size as int,
    ensures
        r.0 == grid_coord_x(index as int, grid_size as int),
        r.1 == grid_coord_y(index as int, grid_size as int),
        r.2 == grid_coord_z(index as int, grid_size as int),
        r.0 < grid_size,
        r.1 < grid_size,
        r.2 < grid_size,
{
    proof {
        let g = grid_size as int;
        assert(g <= g * g) by (nonlinear_arith)
            requires 0 < g;
        assert(g * g < 0x1_0000_0000) by (nonlinear_arith)
            requires 0 < g && g * g * g <= 0x1_0000_0000;
        assert((index as int) / (g * g) < g) by (nonlinear_arith)
            requires 0 < g && (index as int) < g * g * g;
    }
    let index_u32 = index as u32;
    let gs = grid_size;
    let x = index_u32 % gs;
    let y = (index_u32 / gs) % gs;
    let z = index_u32 / (gs * gs);
    (x, y, z)
}

/// Von Neumann neighborhood: the six face-adjacent offsets, ordered
/// +X, -X, +Y, -Y, +Z, -Z.
pub fn neighbor_offsets() -> (r: [(i32, i32, i32); 6])
    ensures
        r@ =~= seq![
            (1i32, 0i32, 0i32),
            (-1i32, 0i32, 0i32),
            (0i32, 1i32, 0i32),
            (0i32, -1i32, 0i32),
            (0i32, 0i32, 1i32),
            (0i32, 0i32, -1i32),
        ],
{
    [
        (1, 0, 0),
        (-1, 0, 0),
        (0, 1, 0),
        (0, -1, 0),
        (0, 0, 1),
        (0, 0, -1),
    ]
}

/// Recovering coordinates from a linear index inverts `grid_index_spec`:
/// for all `x, y, z` below the grid edge, the round trip is the identity.
pub proof fn lemma_grid_roundtrip(x: int, y: int, z: int, gs: int)
    requires
        grid_size_fits(gs),
        0 <= x < gs,
        0 <= y < gs,
        0 <= z < gs,
    ensures
        grid_coord_x(grid_index_spec(x, y, z, gs), gs) == x,
        grid_coord_y(grid_index_spec(x, y, z, gs), gs) == y,
        grid_coord_z(grid_index_spec(x, y, z, gs), gs) == z,
{
    let idx = grid_index_spec(x, y, z, gs);
    assert(z * gs * gs + y * gs + x == (z * gs + y) * gs + x) by (nonlinear_arith);
    lemma_fundamental_div_mod_converse_mod(idx, gs, z * gs + y, x);
    lemma_fundamental_div_mod_converse_div(idx, gs, z * gs + y, x);
    assert(grid_coord_x(idx, gs) == x);
    assert(idx / gs == z * gs + y);
    lemma_fundamental_div_mod_converse_mod(z * gs + y, gs, z, y);
    assert(grid_coord_y(idx, gs) == y);
    assert(0 <= y * gs + x < gs * gs) by (nonlinear_arith)
        requires 0 <= x < gs && 0 <= y < gs;
    assert(z * gs * gs + y * gs + x == z * (gs * gs) + (y * gs + x)) by (nonlinear_arith);
    lemma_fundamental_div_mod_converse_div(idx, gs * gs, z, y * gs + x);
    assert(grid_coord_z(idx, gs) == z);
}

/// The other direction: rebuilding a linear index from its recovered
/// coordinates gives the index back.
pub proof fn lemma_grid_coords_inverse(idx: int, gs: int)
    requires
        0 < gs,
        0 <= idx,
    ensures
        grid_index_spec(
            grid_coord_x(idx, gs), grid_coord_y(idx, gs), grid_coord_z(idx, gs), gs) == idx,
{
    let x = idx % gs;
    let y = (idx / gs) % gs;
    let z = idx / (gs * gs);
    vstd::arithmetic::div_mod::lemma_fundamental_div_mod(idx, gs);
    vstd::arithmetic::div_mod::lemma_fundamental_div_mod(idx / gs, gs);
    vstd::arithmetic::div_mod::lemma_div_denominator(idx, gs, gs);
    assert(idx == gs * (gs * z + y) + x);
    assert(gs * (gs * z + y) + x == z * gs * gs + y * gs + x) by (nonlinear_arith);
}

} // verus!
