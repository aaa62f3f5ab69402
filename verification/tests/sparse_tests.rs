use primordium::sparse::{SparseGrid, BRICK_VOXELS};

#[test]
fn allocate_then_lookup() {
    let mut g = SparseGrid::new(32, 100);
    assert!(!g.is_allocated(3, 4, 5));
    let slot = g.allocate_brick(3, 4, 5).unwrap();
    assert!(g.is_allocated(3, 4, 5));
    assert_eq!(g.active_brick_count(), 1);
    // The first voxel of the brick maps to the start of the slot's region.
    let idx = g.voxel_pool_index(3 * 8, 4 * 8, 5 * 8).unwrap();
    assert_eq!(idx, slot * BRICK_VOXELS);
    // Another voxel of the same brick lands inside the region.
    let idx2 = g.voxel_pool_index(3 * 8 + 1, 4 * 8 + 2, 5 * 8 + 3).unwrap();
    assert_eq!(idx2, slot * BRICK_VOXELS + (3 * 64 + 2 * 8 + 1));
}

#[test]
fn unallocated_brick_reads_none() {
    let g = SparseGrid::new(32, 100);
    assert!(g.voxel_pool_index(0, 0, 0).is_none());
    assert!(g.voxel_pool_index(255, 255, 255).is_none());
}

#[test]
fn allocate_is_idempotent() {
    let mut g = SparseGrid::new(8, 4);
    let s1 = g.allocate_brick(1, 1, 1).unwrap();
    let s2 = g.allocate_brick(1, 1, 1).unwrap();
    assert_eq!(s1, s2);
    assert_eq!(g.active_brick_count(), 1);
}

#[test]
fn exhaustion_fails_silently() {
    let mut g = SparseGrid::new(8, 2);
    assert!(g.allocate_brick(0, 0, 0).is_some());
    assert!(g.allocate_brick(1, 0, 0).is_some());
    // The pool is spent: the next allocation returns None and drops the write.
    assert!(g.allocate_brick(2, 0, 0).is_none());
    assert!(!g.is_allocated(2, 0, 0));
    assert_eq!(g.active_brick_count(), 2);
}

#[test]
fn deallocate_recycles_the_slot() {
    let mut g = SparseGrid::new(8, 1);
    let s = g.allocate_brick(0, 0, 0).unwrap();
    g.deallocate_brick(0, 0, 0);
    assert!(!g.is_allocated(0, 0, 0));
    assert_eq!(g.active_brick_count(), 0);
    // The freed slot serves the next allocation (LIFO free list).
    let s2 = g.allocate_brick(5, 5, 5).unwrap();
    assert_eq!(s, s2);
}

#[test]
fn ensure_brick_for_voxel_allocates_the_containing_brick() {
    let mut g = SparseGrid::new(32, 10);
    g.ensure_brick_for_voxel(17, 9, 250).unwrap();
    assert!(g.is_allocated(17 / 8, 9 / 8, 250 / 8));
}

#[test]
fn border_alloc_covers_face_neighbors() {
    let mut g = SparseGrid::new(8, 64);
    g.allocate_brick(4, 4, 4).unwrap();
    g.proactive_border_alloc();
    assert!(g.is_allocated(5, 4, 4));
    assert!(g.is_allocated(3, 4, 4));
    assert!(g.is_allocated(4, 5, 4));
    assert!(g.is_allocated(4, 3, 4));
    assert!(g.is_allocated(4, 4, 5));
    assert!(g.is_allocated(4, 4, 3));
    assert_eq!(g.active_brick_count(), 7);
}

#[test]
fn empty_bricks_are_reclaimed() {
    let mut g = SparseGrid::new(8, 8);
    let s0 = g.allocate_brick(0, 0, 0).unwrap();
    let s1 = g.allocate_brick(1, 0, 0).unwrap();
    // Occupancy read back from the GPU: slot s0 empty, slot s1 occupied.
    let mut occupancy = vec![1u32; 8];
    occupancy[s0 as usize] = 0;
    occupancy[s1 as usize] = 7;
    g.deallocate_empty_bricks(&occupancy);
    assert!(!g.is_allocated(0, 0, 0));
    assert!(g.is_allocated(1, 0, 0));
    // The reclaimed slot went back on the free list and serves the next
    // allocation.
    assert_eq!(g.allocate_brick(3, 0, 0), Some(s0));
}

#[test]
fn dirty_flag_tracks_table_changes() {
    let mut g = SparseGrid::new(8, 8);
    assert!(g.is_dirty());
    g.mark_clean();
    assert!(!g.is_dirty());
    g.allocate_brick(0, 0, 0);
    assert!(g.is_dirty());
    g.mark_clean();
    g.deallocate_brick(0, 0, 0);
    assert!(g.is_dirty());
}
