use primordium::commands::{Command, CommandType, CommandQueue, encode_command_upload};
use primordium::bridge::{Tool, tool_from_id, clamp_brush_radius, cycle_overlay, command_for_tool};

#[test]
fn command_size_is_64_bytes() {
    assert_eq!(std::mem::size_of::<Command>(), 64);
}

#[test]
fn command_roundtrip_words() {
    let cmd = Command::new(CommandType::PlaceVoxel, 10, 20, 30, 2, 1, 0);
    let words = cmd.to_words();
    assert_eq!(words[0], CommandType::PlaceVoxel as u32);
    assert_eq!(words[1], 10);
    assert_eq!(words[2], 20);
    assert_eq!(words[3], 30);
    assert_eq!(words[4], 2);
    assert_eq!(words[5], 1);
    assert_eq!(words[6], 0);
    for i in 7..16 {
        assert_eq!(words[i], 0, "padding word {} should be 0", i);
    }
}

#[test]
fn upload_truncates_to_64_commands() {
    let mut cmds: Vec<Command> = Vec::new();
    for i in 0..70u32 {
        cmds.push(Command::new(CommandType::RemoveVoxel, i, 0, 0, 0, 0, 0));
    }
    let words = encode_command_upload(&cmds);
    // The count word reports 64, silently dropping the excess.
    assert_eq!(words[0], 64);
    assert_eq!(words.len(), 4 + 16 * 64);
    // The 64th record is command index 63.
    assert_eq!(words[4 + 16 * 63 + 1], 63);
}

#[test]
fn upload_layout_starts_at_word_four() {
    let cmds = vec![Command::new(CommandType::ApplyToxin, 7, 8, 9, 3, 128, 0)];
    let words = encode_command_upload(&cmds);
    assert_eq!(words[0], 1);
    assert_eq!(words[1], 0);
    assert_eq!(words[2], 0);
    assert_eq!(words[3], 0);
    assert_eq!(words[4], CommandType::ApplyToxin as u32);
    assert_eq!(words[5], 7);
    assert_eq!(words[6], 8);
    assert_eq!(words[7], 9);
    assert_eq!(words[8], 3);
    assert_eq!(words[9], 128);
}

#[test]
fn queue_drains_everything_once() {
    let mut q = CommandQueue::new();
    q.push(Command::new(CommandType::PlaceVoxel, 1, 2, 3, 0, 1, 0));
    q.push(Command::new(CommandType::RemoveVoxel, 4, 5, 6, 0, 0, 0));
    assert_eq!(q.len(), 2);
    let drained = q.drain();
    assert_eq!(drained.len(), 2);
    assert_eq!(drained[0].x, 1);
    assert_eq!(drained[1].x, 4);
    assert_eq!(q.len(), 0);
}

#[test]
fn brush_radius_clamps_to_five() {
    assert_eq!(clamp_brush_radius(0), 0);
    assert_eq!(clamp_brush_radius(5), 5);
    assert_eq!(clamp_brush_radius(6), 5);
    assert_eq!(clamp_brush_radius(1000), 5);
    let cmd = command_for_tool(Tool::Wall, 1, 2, 3, 9).unwrap();
    assert_eq!(cmd.radius, 5);
}

#[test]
fn tool_ids_map_like_the_palette() {
    assert_eq!(tool_from_id(0), Tool::NoTool);
    assert_eq!(tool_from_id(1), Tool::Wall);
    assert_eq!(tool_from_id(4), Tool::Seed);
    assert_eq!(tool_from_id(8), Tool::ColdSource);
    assert_eq!(tool_from_id(9), Tool::NoTool);
    assert_eq!(tool_from_id(u32::MAX), Tool::NoTool);
}

#[test]
fn no_tool_queues_no_command() {
    assert!(command_for_tool(Tool::NoTool, 1, 2, 3, 1).is_none());
    let seed = command_for_tool(Tool::Seed, 1, 2, 3, 1).unwrap();
    assert_eq!(seed.command_type, CommandType::SeedProtocells as u32);
    assert_eq!(seed.param_0, 500);
}

#[test]
fn overlay_cycles_through_four_modes() {
    assert_eq!(cycle_overlay(0), 1);
    assert_eq!(cycle_overlay(3), 0);
    assert_eq!(cycle_overlay(2), 3);
}
