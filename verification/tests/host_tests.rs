use primordium::stats::SimStats;
use primordium::picker::parse_pick;
use primordium::readback::{ReadbackState, StatsReadback, PickReadback};
use primordium::tier::{
    GpuTier, detect_gpu_tier, voxel_buffer_bytes, word_buffer_bytes,
    next_smaller_grid, COMMAND_BUFFER_BYTES, STATS_BUFFER_BYTES, PICK_STAGING_BYTES,
};
use primordium::params::SimParams;
use primordium::pipeline::{phase_bindings, grid_workgroups, stats_workgroups, Phase, Binding};
use primordium::voxel::{Voxel, VoxelType};
use primordium::genome::Genome;

#[test]
fn stats_parse_orders_species_by_count() {
    let mut words = [0u32; 32];
    words[0] = 12; // population
    words[1] = 3400; // total energy
    words[3] = 900; // max energy
    // Three populated histogram slots, out of order.
    words[4] = 7;
    words[5] = 2;
    words[6] = 9;
    words[7] = 8;
    words[8] = 11;
    words[9] = 5;
    let s = SimStats::from_words(&words);
    assert_eq!(s.population, 12);
    assert_eq!(s.total_energy, 3400);
    assert_eq!(s.max_energy, 900);
    assert_eq!(s.species_count, 3);
    assert_eq!(s.species_histogram, vec![(9, 8), (11, 5), (7, 2)]);
}

#[test]
fn stats_parse_skips_empty_slots() {
    let mut words = [0u32; 32];
    words[4] = 3; // species id without a count
    words[7] = 5; // count without a species id
    let s = SimStats::from_words(&words);
    assert_eq!(s.species_count, 0);
    assert!(s.species_histogram.is_empty());
}

#[test]
fn parse_pick_reads_the_packed_layout() {
    let mut genome = Genome::default();
    for i in 0..16u8 {
        genome.bytes[i as usize] = i + 1;
    }
    let v = Voxel {
        voxel_type: VoxelType::Protocell,
        flags: 0,
        energy: 777,
        age: 3,
        species_id: 3141,
        genome,
        extra: [0, 0],
    };
    let words = v.pack();
    let mut bytes = Vec::new();
    for w in words {
        bytes.extend_from_slice(&w.to_le_bytes());
    }
    let pick = parse_pick(&bytes, 10, 20, 30);
    assert_eq!((pick.x, pick.y, pick.z), (10, 20, 30));
    assert_eq!(pick.voxel_type, 4);
    assert_eq!(pick.energy, 777);
    assert_eq!(pick.age, 3);
    assert_eq!(pick.species_id, 3141);
    assert_eq!(pick.genome, genome.bytes);
}

#[test]
fn stats_readback_fires_every_ten_ticks() {
    let mut m = StatsReadback::new();
    assert!(!m.wants_map());
    m.record_ticks(9);
    assert!(!m.wants_map());
    m.record_ticks(1);
    assert!(m.wants_map());
    m.begin_map();
    assert_eq!(m.state, ReadbackState::MapRequested);
    // While a map is outstanding, no second one is requested.
    m.record_ticks(30);
    assert!(!m.wants_map());
    m.finish_map();
    assert_eq!(m.state, ReadbackState::Idle);
    assert!(m.wants_map());
}

#[test]
fn pick_readback_walks_its_three_states() {
    let mut m = PickReadback::new();
    assert!(!m.wants_copy());
    m.request(10, 20, 30);
    assert!(m.wants_copy());
    m.begin_copy();
    assert_eq!(m.state, ReadbackState::CopyIssued);
    assert!(!m.wants_copy());
    m.begin_map();
    assert_eq!(m.state, ReadbackState::MapRequested);
    let target = m.finish_map();
    assert_eq!(target, (10, 20, 30));
    assert_eq!(m.state, ReadbackState::Idle);
    assert!(!m.wants_copy());
}

#[test]
fn tier_detection_follows_the_limits() {
    let mb = 1024 * 1024;
    // Integrated GPUs always start small.
    assert_eq!(detect_gpu_tier(true, 1024 * mb, 1024 * mb), GpuTier::Low);
    // Limits of 50 MB or more carry the sparse pool.
    assert_eq!(detect_gpu_tier(false, 256 * mb, 128 * mb), GpuTier::Sparse256);
    assert_eq!(detect_gpu_tier(false, 50 * mb, 50 * mb), GpuTier::Sparse256);
    // Below that, the largest dense grid whose buffers fit: a 96-grid
    // voxel buffer takes 27 MB.
    assert_eq!(detect_gpu_tier(false, 49 * mb, 49 * mb), GpuTier::Medium);
    assert_eq!(detect_gpu_tier(false, 20 * mb, 20 * mb), GpuTier::Low);
}

#[test]
fn tier_sizes_and_fallback() {
    assert_eq!(GpuTier::Sparse256.grid_size(), 256);
    assert!(GpuTier::Sparse256.is_sparse());
    assert_eq!(GpuTier::High.grid_size(), 128);
    assert!(!GpuTier::High.is_sparse());
    assert_eq!(GpuTier::Medium.grid_size(), 96);
    assert_eq!(GpuTier::Low.grid_size(), 64);
    assert_eq!(next_smaller_grid(256), Some(128));
    assert_eq!(next_smaller_grid(128), Some(96));
    assert_eq!(next_smaller_grid(96), Some(64));
    assert_eq!(next_smaller_grid(64), None);
}

#[test]
fn buffer_sizes_match_the_layout() {
    // One packed voxel is 32 bytes; one word per voxel for intents and
    // temperatures.
    assert_eq!(voxel_buffer_bytes(128), 128 * 128 * 128 * 32);
    assert_eq!(word_buffer_bytes(128), 128 * 128 * 128 * 4);
    assert_eq!(COMMAND_BUFFER_BYTES, 4128);
    assert_eq!(STATS_BUFFER_BYTES, 128);
    assert_eq!(PICK_STAGING_BYTES, 32);
}

#[test]
fn params_sanitize_clamps_fractions() {
    let wild = SimParams {
        diffusion_rate: 1_000_000,
        predation_energy_fraction: 70_000,
        ..SimParams::default()
    };
    let p = wild.sanitized();
    assert_eq!(p.diffusion_rate, 65536);
    assert_eq!(p.predation_energy_fraction, 65536);
    assert_eq!(p.max_energy, wild.max_energy);
}

#[test]
fn phase_bindings_follow_the_fixed_contract() {
    // Dense resolve: voxel read at 0, voxel write at 1, parameters at 2,
    // resolved intents at 3, temperature at 4.
    let resolve = phase_bindings(Phase::ResolveExecute, false);
    assert_eq!(resolve[0], (0, Binding::VoxelRead));
    assert_eq!(resolve[1], (1, Binding::VoxelWrite));
    assert_eq!(resolve[2], (2, Binding::Parameters));
    assert_eq!(resolve[3], (3, Binding::IntentRead));
    assert_eq!(resolve[4], (4, Binding::TemperatureRead));
    assert_eq!(resolve.len(), 5);
    // Every sparse variant appends the brick table at binding 10.
    for phase in [
        Phase::ApplyCommands,
        Phase::TemperatureDiffusion,
        Phase::IntentDeclaration,
        Phase::ResolveExecute,
        Phase::StatsReduction,
    ] {
        let sparse = phase_bindings(phase, true);
        assert_eq!(*sparse.last().unwrap(), (10, Binding::BrickTable));
        let dense = phase_bindings(phase, false);
        assert_eq!(dense.len() + 1, sparse.len());
    }
}

#[test]
fn dispatch_shapes_cover_the_grid() {
    assert_eq!(grid_workgroups(64), 16);
    assert_eq!(grid_workgroups(96), 24);
    assert_eq!(grid_workgroups(128), 32);
    assert_eq!(grid_workgroups(256), 64);
    assert_eq!(stats_workgroups(64 * 64 * 64), 4096);
    assert_eq!(stats_workgroups(1), 1);
    assert_eq!(stats_workgroups(65), 2);
}
