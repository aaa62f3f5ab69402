//! The five compute phases: their fixed bind-group layout and dispatch
//! shapes.
//!
//! Group 0 of every phase binds the voxel read buffer at binding 0, the
//! write target (voxel write, intent, or temperature write) at binding 1,
//! the parameter uniform at binding 2; the phases that read temperature or
//! resolved intents bind them at 3 and 4; sparse variants add the brick
//! table at binding 10. Grid phases dispatch a cube of 4x4x4-thread
//! groups; the statistics reduction dispatches one-dimensional groups of
//! 64 threads.

use vstd::prelude::*;

verus! {

/// Threads per workgroup edge of the grid phases.
pub const WORKGROUP_EDGE: u32 = 4;

/// Threads per workgroup of the statistics reduction.
pub const STATS_WORKGROUP: u32 = 64;

/// The brick table's binding slot in sparse variants.
pub const BRICK_TABLE_BINDING: u32 = 10;

/// The five phases of one tick, in dispatch order.
#[derive(Debug, Clone, Copy, PartialEq, Eq, Structural)]
pub enum Phase {
    ApplyCommands,
    TemperatureDiffusion,
    IntentDeclaration,
    ResolveExecute,
    StatsReduction,
}

/// What one binding slot of a phase's bind group carries.
#[derive(Debug, Clone, Copy, PartialEq, Eq, Structural)]
pub enum Binding {
    VoxelRead,
    VoxelWrite,
    IntentWrite,
    IntentRead,
    TemperatureRead,
    TemperatureWrite,
    Parameters,
    CommandList,
    StatsOut,
    BrickTable,
}

/// The bind-group layout of a phase: `(slot, contents)` pairs in slot
/// order. Every phase reads voxels at slot 0 and parameters; the write
/// target sits at slot 1.
pub open spec fn spec_phase_bindings(phase: Phase, sparse: bool) -> Seq<(u32, Binding)> {
    let base = match phase {
        Phase::ApplyCommands => seq![
            (0u32, Binding::VoxelRead),
            (1u32, Binding::CommandList),
            (2u32, Binding::Parameters),
        ],
        Phase::TemperatureDiffusion => seq![
            (0u32, Binding::TemperatureRead),
            (1u32, Binding::TemperatureWrite),
            (2u32, Binding::VoxelRead),
            (3u32, Binding::Parameters),
        ],
        Phase::IntentDeclaration => seq![
            (0u32, Binding::VoxelRead),
            (1u32, Binding::IntentWrite),
            (2u32, Binding::Parameters),
            (3u32, Binding::TemperatureRead),
        ],
        Phase::ResolveExecute => seq![
            (0u32, Binding::VoxelRead),
            (1u32, Binding::VoxelWrite),
            (2u32, Binding::Parameters),
            (3u32, Binding::IntentRead),
            (4u32, Binding::TemperatureRead),
        ],
        Phase::StatsReduction => seq![
            (0u32, Binding::VoxelRead),
            (1u32, Binding::StatsOut),
            (2u32, Binding::Parameters),
        ],
    };
    if sparse {
        base.push((BRICK_TABLE_BINDING, Binding::BrickTable))
    } else {
        base
    }
}

/// Build the bind-group layout of a phase: slots ascend, the sparse
/// variant appends the brick table at slot 10, and the dense variant never
/// mentions it.
pub fn phase_bindings(phase: Phase, sparse: bool) -> (r: Vec<(u32, Binding)>)
    ensures
        r@ == spec_phase_bindings(phase, sparse),
        forall|a: int, b: int| 0 <= a < b < r@.len() ==> (#[trigger] r@[a]).0 < (#[trigger] r@[b]).0,
        sparse <==> r@.last() == (BRICK_TABLE_BINDING, Binding::BrickTable),
    decreases (if sparse { 1int } else { 0int }),
{
    if sparse {
        let mut r = phase_bindings(phase, false);
        r.push((BRICK_TABLE_BINDING, Binding::BrickTable));
        proof {
            assert(r@ =~= spec_phase_bindings(phase, true));
        }
        return r;
    }
    let mut r: Vec<(u32, Binding)> = Vec::new();
    match phase {
        Phase::ApplyCommands => {
            r.push((0, Binding::VoxelRead));
            r.push((1, Binding::CommandList));
            r.push((2, Binding::Parameters));
        },
        Phase::TemperatureDiffusion => {
            r.push((0, Binding::TemperatureRead));
            r.push((1, Binding::TemperatureWrite));
            r.push((2, Binding::VoxelRead));
            r.push((3, Binding::Parameters));
        },
        Phase::IntentDeclaration => {
            r.push((0, Binding::VoxelRead));
            r.push((1, Binding::IntentWrite));
            r.push((2, Binding::Parameters));
            r.push((3, Binding::TemperatureRead));
        },
        Phase::ResolveExecute => {
            r.push((0, Binding::VoxelRead));
            r.push((1, Binding::VoxelWrite));
            r.push((2, Binding::Parameters));
            r.push((3, Binding::IntentRead));
            r.push((4, Binding::TemperatureRead));
        },
        Phase::StatsReduction => {
            r.push((0, Binding::VoxelRead));
            r.push((1, Binding::StatsOut));
            r.push((2, Binding::Parameters));
        },
    }
    proof {
        assert(r@ =~= spec_phase_bindings(phase, false));
    }
    r
}

/// Workgroups per axis of a grid phase: the grid edge over the workgroup
/// edge, rounded up so every cell is covered.
pub open spec fn spec_grid_workgroups(gs: int) -> int {
    (gs + 3) / 4
}

/// Compute the grid-phase dispatch width.
pub fn grid_workgroups(gs: u32) -> (r: u32)
    requires
        gs <= 0x1000_0000,
    ensures
        r == spec_grid_workgroups(gs as int),
        r as int * 4 >= gs as int,
{
    (gs + 3) / WORKGROUP_EDGE
}

/// Workgroups of the one-dimensional statistics reduction over `n` items:
/// enough groups of 64 to cover them all.
pub open spec fn spec_stats_workgroups(n: int) -> int {
    (n + 63) / 64
}

/// Compute the statistics-reduction dispatch width.
pub fn stats_workgroups(n: u32) -> (r: u32)
    requires
        n <= 0x1000_0000,
    ensures
        r == spec_stats_workgroups(n as int),
        r as int * 64 >= n as int,
{
    (n + 63) / STATS_WORKGROUP
}

} // verus!
