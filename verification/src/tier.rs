//! GPU tier detection and exact buffer sizes.
//!
//! At startup the adapter limits pick a grid tier: integrated GPUs get the
//! small dense grid; ample buffer limits get the sparse 256 grid; anything
//! else gets the largest dense grid whose buffers fit. If allocation still
//! fails the host steps down one dense tier at a time.

use vstd::prelude::*;

verus! {

/// Bytes per packed voxel.
pub const VOXEL_BYTES: u64 = 32;

/// Bytes of the command buffer: a count word, three padding words, and 64
/// records of 16 words, rounded up to 16-byte alignment.
pub const COMMAND_BUFFER_BYTES: u64 = 4128;

/// Bytes of the statistics buffer: 32 words.
pub const STATS_BUFFER_BYTES: u64 = 128;

/// Bytes of the pick staging buffer: one voxel.
pub const PICK_STAGING_BYTES: u64 = 32;

/// Bytes a sparse voxel pool needs: about 50 MB at the default brick count.
pub const SPARSE_POOL_BYTES: u64 = 52_428_800;

/// The grid tiers the core starts at.
#[derive(Debug, Clone, Copy, PartialEq, Eq, Structural)]
pub enum GpuTier {
    /// 256-grid with the sparse brick pool.
    Sparse256,
    /// 128-grid, dense.
    High,
    /// 96-grid, dense.
    Medium,
    /// 64-grid, dense.
    Low,
}

/// The grid edge of a tier.
pub open spec fn spec_tier_grid_size(t: GpuTier) -> u32 {
    match t {
        GpuTier::Sparse256 => 256,
        GpuTier::High => 128,
        GpuTier::Medium => 96,
        GpuTier::Low => 64,
    }
}

impl GpuTier {
    /// The grid edge this tier runs at.
    pub fn grid_size(self) -> (r: u32)
        ensures
            r == spec_tier_grid_size(self),
    {
        match self {
            GpuTier::Sparse256 => 256,
            GpuTier::High => 128,
            GpuTier::Medium => 96,
            GpuTier::Low => 64,
        }
    }

    /// Whether this tier uses the sparse brick pool.
    pub fn is_sparse(self) -> (r: bool)
        ensures
            r == (self == GpuTier::Sparse256),
    {
        matches!(self, GpuTier::Sparse256)
    }
}

/// Bytes of one dense voxel buffer for a grid edge: one packed voxel per
/// cell.
pub open spec fn spec_voxel_buffer_bytes(gs: int) -> int {
    gs * gs * gs * 32
}

/// Compute the dense voxel buffer size for a grid edge.
pub fn voxel_buffer_bytes(gs: u32) -> (r: u64)
    requires
        gs <= 4096,
    ensures
        r == spec_voxel_buffer_bytes(gs as int),
{
    proof {
        assert((gs as int) * (gs as int) * (gs as int) * 32
            <= 4096 * 4096 * 4096 * 32) by (nonlinear_arith)
            requires 0 <= gs as int <= 4096;
        assert((gs as int) * (gs as int) <= 4096 * 4096) by (nonlinear_arith)
            requires 0 <= gs as int <= 4096;
        assert((gs as int) * (gs as int) * (gs as int) <= 4096 * 4096 * 4096)
            by (nonlinear_arith)
            requires 0 <= gs as int <= 4096;
    }
    gs as u64 * gs as u64 * gs as u64 * VOXEL_BYTES
}

/// Bytes of one temperature or intent buffer: one word per cell.
pub open spec fn spec_word_buffer_bytes(gs: int) -> int {
    gs * gs * gs * 4
}

/// Compute the per-word buffer size for a grid edge.
pub fn word_buffer_bytes(gs: u32) -> (r: u64)
    requires
        gs <= 4096,
    ensures
        r == spec_word_buffer_bytes(gs as int),
{
    proof {
        assert((gs as int) * (gs as int) <= 4096 * 4096) by (nonlinear_arith)
            requires 0 <= gs as int <= 4096;
        assert((gs as int) * (gs as int) * (gs as int) <= 4096 * 4096 * 4096)
            by (nonlinear_arith)
            requires 0 <= gs as int <= 4096;
        assert((gs as int) * (gs as int) * (gs as int) * 4
            <= 4096 * 4096 * 4096 * 4) by (nonlinear_arith)
            requires 0 <= gs as int <= 4096;
    }
    gs as u64 * gs as u64 * gs as u64 * 4
}

/// Bytes of a sparse voxel pool holding `max_bricks` bricks of 512 voxels.
pub open spec fn spec_sparse_pool_bytes(max_bricks: int) -> int {
    max_bricks * 512 * 32
}

/// Compute the sparse voxel pool size.
pub fn sparse_pool_bytes(max_bricks: u32) -> (r: u64)
    ensures
        r == spec_sparse_pool_bytes(max_bricks as int),
{
    max_bricks as u64 * 512 * 32
}

/// Whether a dense grid's buffers fit the device limits: the voxel buffer
/// must fit both the total buffer ceiling and the storage binding ceiling.
pub open spec fn spec_dense_fits(gs: int, max_buffer: int, max_storage: int) -> bool {
    spec_voxel_buffer_bytes(gs) <= max_buffer && spec_voxel_buffer_bytes(gs) <= max_storage
}

/// Check whether a dense grid fits the device limits.
pub fn dense_fits(gs: u32, max_buffer: u64, max_storage: u64) -> (r: bool)
    requires
        gs <= 4096,
    ensures
        r == spec_dense_fits(gs as int, max_buffer as int, max_storage as int),
{
    let b = voxel_buffer_bytes(gs);
    b <= max_buffer && b <= max_storage
}

/// The tier the adapter limits pick: integrated GPUs run the small dense
/// grid; limits that carry the sparse pool run the sparse 256 grid; then
/// the largest dense grid whose buffers fit, down to the small one.
pub open spec fn spec_detect_tier(integrated: bool, max_buffer: int, max_storage: int) -> GpuTier {
    if integrated {
        GpuTier::Low
    } else if SPARSE_POOL_BYTES <= max_buffer && SPARSE_POOL_BYTES <= max_storage {
        GpuTier::Sparse256
    } else if spec_dense_fits(128, max_buffer, max_storage) {
        GpuTier::High
    } else if spec_dense_fits(96, max_buffer, max_storage) {
        GpuTier::Medium
    } else {
        GpuTier::Low
    }
}

/// Detect the starting tier from the adapter's kind and buffer limits.
pub fn detect_gpu_tier(integrated: bool, max_buffer: u64, max_storage: u64) -> (r: GpuTier)
    ensures
        r == spec_detect_tier(integrated, max_buffer as int, max_storage as int),
{
    if integrated {
        return GpuTier::Low;
    }
    if SPARSE_POOL_BYTES <= max_buffer && SPARSE_POOL_BYTES <= max_storage {
        return GpuTier::Sparse256;
    }
    if dense_fits(128, max_buffer, max_storage) {
        return GpuTier::High;
    }
    if dense_fits(96, max_buffer, max_storage) {
        return GpuTier::Medium;
    }
    GpuTier::Low
}

/// The next smaller dense grid to retry after an allocation failure, or
/// none below the smallest tier.
pub open spec fn spec_next_smaller_grid(gs: u32) -> Option<u32> {
    if gs > 128 { Some(128u32) }
    else if gs > 96 { Some(96u32) }
    else if gs > 64 { Some(64u32) }
    else { None }
}

/// Step down one dense tier after an allocation failure.
pub fn next_smaller_grid(gs: u32) -> (r: Option<u32>)
    ensures
        r == spec_next_smaller_grid(gs),
{
    if gs > 128 { Some(128) }
    else if gs > 96 { Some(96) }
    else if gs > 64 { Some(64) }
    else { None }
}

} // verus!
