use primordium::grid::{grid_index, grid_coords, neighbor_offsets};

#[test]
fn grid_index_origin() {
    assert_eq!(grid_index(0, 0, 0, 128), 0);
}

#[test]
fn grid_index_last() {
    assert_eq!(grid_index(127, 127, 127, 128), 128 * 128 * 128 - 1);
}

#[test]
fn grid_roundtrip() {
    let gs = 128;
    for &(x, y, z) in &[(0, 0, 0), (1, 2, 3), (63, 64, 65), (127, 127, 127)] {
        let idx = grid_index(x, y, z, gs);
        let (rx, ry, rz) = grid_coords(idx, gs);
        assert_eq!((rx, ry, rz), (x, y, z), "roundtrip failed for ({x},{y},{z})");
    }
}

#[test]
fn neighbor_offsets_count() {
    assert_eq!(neighbor_offsets().len(), 6);
}

#[test]
fn neighbor_offsets_symmetry() {
    let offsets = neighbor_offsets();
    for (dx, dy, dz) in &offsets {
        let neg = (-dx, -dy, -dz);
        assert!(
            offsets.contains(&neg),
            "offset ({dx},{dy},{dz}) has no negation in list"
        );
    }
}
