use primordium::engine::SimEngine;
use primordium::params::SimParams;
use primordium::voxel::{Voxel, VoxelType};
use primordium::genome::Genome;
use primordium::intent::{ActionType, Direction, intent_encode, intent_combine};
use primordium::sim::{diffuse_grid, resolve_grid};
use primordium::commands::{Command, CommandType, CommandQueue};
use primordium::timing::FrameTiming;

fn quiet_params() -> SimParams {
    SimParams {
        nutrient_spawn_rate: 0,
        ..SimParams::default()
    }
}

fn protocell(genome: Genome, energy: u16) -> Voxel {
    Voxel {
        voxel_type: VoxelType::Protocell,
        flags: 0,
        energy,
        age: 0,
        species_id: genome.species_id(),
        genome,
        extra: [0, 0],
    }
}

#[test]
fn all_wall_grid_diffusion_is_a_noop() {
    let gs = 4u32;
    let n = (gs * gs * gs) as usize;
    let wall = Voxel { voxel_type: VoxelType::Wall, ..Default::default() };
    let cells = vec![wall; n];
    let mut temps: Vec<u32> = Vec::new();
    for i in 0..n {
        temps.push(((i as u32) * 1021) % 65537);
    }
    let out = diffuse_grid(&cells, &temps, &SimParams::default(), gs);
    assert_eq!(out, temps);
}

#[test]
fn empty_grid_stays_empty_for_a_hundred_ticks() {
    let mut engine = SimEngine::new(64, &SimParams::default());
    engine.run_ticks(100);
    let stats = engine.stats();
    assert_eq!(stats.population, 0);
    assert_eq!(stats.total_energy, 0);
    assert_eq!(stats.species_count, 0);
}

#[test]
fn waste_decays_into_a_nutrient() {
    let params = SimParams { waste_decay_ticks: 5, ..quiet_params() };
    let mut engine = SimEngine::new(8, &params);
    let waste = Voxel { voxel_type: VoxelType::Waste, ..Default::default() };
    engine.write_voxel(4, 4, 4, waste);
    engine.run_ticks(5);
    assert_eq!(engine.read_voxel(4, 4, 4).voxel_type, VoxelType::Waste);
    engine.run_ticks(1);
    assert_eq!(engine.read_voxel(4, 4, 4).voxel_type, VoxelType::Nutrient);
}

#[test]
fn replication_splits_the_parent_energy() {
    let params = quiet_params();
    let mut engine = SimEngine::new(8, &params);
    let mut genome = Genome::default();
    genome.bytes[2] = 200; // replication threshold
    genome.bytes[3] = 0; // no mutation, so the child keeps the species
    genome.bytes[10] = 128; // an even split
    let initial = params.replication_energy_min + 100;
    engine.write_voxel(4, 4, 4, protocell(genome, initial));
    engine.run_ticks(1);
    let stats = engine.stats();
    assert!(stats.population >= 2, "population {} after replication", stats.population);
    // Parent plus child hold the parent's energy minus one metabolic cost.
    assert_eq!(stats.total_energy, (initial - params.metabolic_cost_base) as u32);
}

#[test]
fn conflict_resolution_favors_the_higher_bid() {
    // Two protocells flank an empty cell and both move into it. The
    // bidder with 200 wins; the bidder with 100 stays where it was.
    let gs = 3u32;
    let n = (gs * gs * gs) as usize;
    let params = SimParams { metabolic_cost_base: 0, ..quiet_params() };
    let mut ga = Genome::default();
    ga.bytes[0] = 1;
    let mut gb = Genome::default();
    gb.bytes[0] = 2;
    let a = protocell(ga, 600);
    let b = protocell(gb, 400);
    let idx = |x: u32, y: u32, z: u32| (z * 9 + y * 3 + x) as usize;
    let mut cells = vec![Voxel::default(); n];
    cells[idx(0, 1, 1)] = a;
    cells[idx(2, 1, 1)] = b;
    let mut intents = vec![0u32; n];
    let w_a = intent_encode(ActionType::Move, Direction::PosX, 200);
    let w_b = intent_encode(ActionType::Move, Direction::NegX, 100);
    intents[idx(1, 1, 1)] = intent_combine(w_a, w_b);
    assert_eq!(intents[idx(1, 1, 1)], w_a, "the higher bid wins the combine");

    let out = resolve_grid(&cells, &intents, &params, 0, gs);
    // The destination holds the winner's voxel, one movement cost poorer.
    let dest = out[idx(1, 1, 1)];
    assert_eq!(dest.voxel_type, VoxelType::Protocell);
    assert_eq!(dest.species_id, a.species_id);
    assert_eq!(dest.energy, 600 - params.movement_energy_cost);
    // The winner's source cell is vacated.
    assert_eq!(out[idx(0, 1, 1)].voxel_type, VoxelType::Empty);
    // The loser stays in place, unchanged but for its age.
    let loser = out[idx(2, 1, 1)];
    assert_eq!(loser.voxel_type, VoxelType::Protocell);
    assert_eq!(loser.species_id, b.species_id);
    assert_eq!(loser.energy, 400);
}

#[test]
fn benchmark_seeding_fills_a_third_of_the_grid() {
    let mut engine = SimEngine::new(128, &SimParams::default());
    let count = engine.seed_benchmark();
    let expected = 629_145i64;
    let diff = (count as i64 - expected).abs();
    assert!(
        diff <= expected / 50,
        "population {count} is not within 2% of {expected}"
    );
    assert_eq!(engine.stats().population, count);
    // Every filled voxel carries a nonzero species id.
    for x in 0..128u32 {
        for y in 0..128u32 {
            for z in 0..128u32 {
                let v = engine.read_voxel(x, y, z);
                if v.voxel_type == VoxelType::Protocell {
                    assert_ne!(v.species_id, 0, "protocell at ({x},{y},{z})");
                }
            }
        }
    }
}

#[test]
fn pick_reads_the_written_protocell_after_one_tick() {
    let params = SimParams { replication_energy_min: u16::MAX, ..quiet_params() };
    let mut engine = SimEngine::new(64, &params);
    engine.write_voxel(10, 20, 30, protocell(Genome::default(), 777));
    engine.run_ticks(1);
    let pick = engine.pick_result(10, 20, 30);
    assert_eq!(pick.voxel_type, 4, "voxel type tag of a protocell");
    assert_eq!(pick.energy, 777 - params.metabolic_cost_base);
    assert_eq!((pick.x, pick.y, pick.z), (10, 20, 30));
}

#[test]
fn predation_consumes_the_prey() {
    let params = SimParams { metabolic_cost_base: 0, ..quiet_params() };
    let mut engine = SimEngine::new(8, &params);
    let mut hunter_genome = Genome::default();
    hunter_genome.bytes[7] = 200; // predation capability
    let mut prey_genome = Genome::default();
    prey_genome.bytes[0] = 9; // a different species
    let hunter = protocell(hunter_genome, 100);
    let prey = protocell(prey_genome, 80);
    assert_ne!(hunter.species_id, prey.species_id);
    engine.write_voxel(3, 3, 3, hunter);
    engine.write_voxel(4, 3, 3, prey);
    engine.run_ticks(1);
    let stats = engine.stats();
    assert_eq!(stats.population, 1, "one of the two remains");
    // The predator absorbed half the prey's energy.
    assert_eq!(stats.total_energy, 100 + 40);
}

#[test]
fn presets_seed_living_grids() {
    for preset in 0..3u32 {
        let mut engine = SimEngine::new(64, &SimParams::default());
        engine.initialize_grid_with_preset(preset);
        let stats = engine.stats();
        assert!(stats.population > 0, "preset {preset} placed no protocells");
        assert_eq!(engine.tick_count(), 0);
    }
}

#[test]
fn tick_counts_and_roles_advance() {
    let mut engine = SimEngine::new(4, &quiet_params());
    assert!(engine.current_read_is_a());
    assert_eq!(engine.tick_count(), 0);
    engine.run_ticks(3);
    assert_eq!(engine.tick_count(), 3);
    assert!(!engine.current_read_is_a());
    engine.reset_tick_count();
    assert_eq!(engine.tick_count(), 0);
    assert!(engine.current_read_is_a());
}

#[test]
fn toxin_command_wounds_protocells() {
    let params = SimParams {
        metabolic_cost_base: 0,
        replication_energy_min: u16::MAX,
        ..quiet_params()
    };
    let mut engine = SimEngine::new(8, &params);
    engine.write_voxel(4, 4, 4, protocell(Genome::default(), 500));
    let cmds = vec![Command::new(CommandType::ApplyToxin, 4, 4, 4, 0, 128, 0)];
    engine.tick(&cmds);
    // A zero-resistance protocell takes the full toxin strength.
    let v = engine.read_voxel(4, 4, 4);
    assert_eq!(v.voxel_type, VoxelType::Protocell);
    assert_eq!(v.energy, 500 - 128);
}

#[test]
fn remove_command_clears_a_ball_but_not_beyond() {
    let params = quiet_params();
    let mut engine = SimEngine::new(16, &params);
    let wall = Voxel { voxel_type: VoxelType::Wall, ..Default::default() };
    for x in 0..16u32 {
        engine.write_voxel(x, 8, 8, wall);
    }
    // A remove stroke of radius 2 at the center of the wall line.
    let cmds = vec![Command::new(CommandType::RemoveVoxel, 8, 8, 8, 2, 0, 0)];
    engine.tick(&cmds);
    for x in 0..16u32 {
        let v = engine.read_voxel(x, 8, 8);
        let dist = (x as i32 - 8).abs();
        if dist <= 2 {
            assert_eq!(v.voxel_type, VoxelType::Empty, "x={x} inside the ball");
        } else {
            assert_eq!(v.voxel_type, VoxelType::Wall, "x={x} beyond the ball");
        }
    }
}

#[test]
fn runs_are_pure_functions_of_the_initial_state() {
    // Two engines seeded identically tick to identical statistics.
    let build = || {
        let mut e = SimEngine::new(16, &SimParams::default());
        let mut genome = Genome::default();
        genome.bytes[2] = 200;
        genome.bytes[4] = 255; // eager mover
        genome.bytes[10] = 128;
        e.write_voxel(8, 8, 8, protocell(genome, 400));
        e.write_voxel(9, 8, 8, Voxel { voxel_type: VoxelType::Nutrient, energy: 200, ..Default::default() });
        e
    };
    let mut e1 = build();
    let mut e2 = build();
    e1.run_ticks(20);
    e2.run_ticks(20);
    let s1 = e1.stats();
    let s2 = e2.stats();
    assert_eq!(s1.population, s2.population);
    assert_eq!(s1.total_energy, s2.total_energy);
    assert_eq!(s1.max_energy, s2.max_energy);
    assert_eq!(s1.species_histogram, s2.species_histogram);
    for x in 0..16u32 {
        for y in 0..16u32 {
            for z in 0..16u32 {
                assert_eq!(e1.read_voxel(x, y, z), e2.read_voxel(x, y, z));
            }
        }
    }
}

#[test]
fn frames_apply_commands_on_the_first_tick_only() {
    let params = SimParams { replication_energy_min: u16::MAX, ..quiet_params() };

    // A queued placement takes effect during a multi-tick frame, and the
    // queue is drained.
    let mut engine = SimEngine::new(8, &params);
    let mut queue = CommandQueue::new();
    queue.push(Command::new(CommandType::PlaceVoxel, 4, 4, 4, 0, 1, 0));
    engine.run_frame(&mut queue, 3);
    assert_eq!(queue.len(), 0);
    assert_eq!(engine.tick_count(), 3);
    assert_eq!(engine.read_voxel(4, 4, 4).voxel_type, VoxelType::Wall);

    // With zero ticks due, the frame still drains the queue and the grid
    // does not move.
    let mut engine = SimEngine::new(8, &params);
    let mut queue = CommandQueue::new();
    queue.push(Command::new(CommandType::PlaceVoxel, 4, 4, 4, 0, 1, 0));
    engine.run_frame(&mut queue, 0);
    assert_eq!(queue.len(), 0);
    assert_eq!(engine.tick_count(), 0);
    assert_eq!(engine.read_voxel(4, 4, 4).voxel_type, VoxelType::Empty);
}

#[test]
fn rate_changes_keep_accumulated_time() {
    let mut t = FrameTiming::new();
    t.set_tick_rate(10);
    // Accumulate 60 ms, below the 100 ms interval.
    assert_eq!(t.ticks_due(60_000), 0);
    assert_eq!(t.tick_accumulator, 60_000);
    // A rate change keeps the unspent time.
    t.set_tick_rate(20);
    assert_eq!(t.tick_accumulator, 60_000);
    // At 20 ticks per second the interval is 50 ms: one tick is already due.
    assert_eq!(t.ticks_due(0), 1);
    assert_eq!(t.tick_accumulator, 10_000);
}

#[test]
fn benign_commands_never_spawn_protocells() {
    // Wall placements and removals on an empty grid leave the population
    // at zero, tick after tick.
    let mut engine = SimEngine::new(8, &quiet_params());
    let mut queue = CommandQueue::new();
    queue.push(Command::new(CommandType::PlaceVoxel, 4, 4, 4, 2, 1, 0));
    queue.push(Command::new(CommandType::RemoveVoxel, 2, 2, 2, 1, 0, 0));
    engine.run_frame(&mut queue, 3);
    engine.run_ticks(20);
    assert_eq!(engine.stats().population, 0);
    // A seed command, by contrast, does spawn.
    queue.push(Command::new(CommandType::SeedProtocells, 1, 6, 6, 0, 300, 0));
    engine.run_frame(&mut queue, 1);
    assert!(engine.stats().population > 0);
}
