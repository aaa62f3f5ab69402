//! Host bridge: tool selection, brush handling, and the commands that a
//! tool stroke queues.

use vstd::prelude::*;
use crate::commands::{Command, CommandType, spec_command_code};

verus! {

/// The largest brush radius a stroke may use.
pub const MAX_BRUSH: u32 = 5;

/// The tool the host currently paints with.
#[derive(Debug, Clone, Copy, PartialEq, Eq, Structural)]
pub enum Tool {
    NoTool,
    Wall,
    EnergySource,
    Nutrient,
    Seed,
    Toxin,
    Remove,
    HeatSource,
    ColdSource,
}

/// The tool a numeric id selects; out-of-range ids select no tool.
pub open spec fn spec_tool_from_id(id: u32) -> Tool {
    if id == 1 { Tool::Wall }
    else if id == 2 { Tool::EnergySource }
    else if id == 3 { Tool::Nutrient }
    else if id == 4 { Tool::Seed }
    else if id == 5 { Tool::Toxin }
    else if id == 6 { Tool::Remove }
    else if id == 7 { Tool::HeatSource }
    else if id == 8 { Tool::ColdSource }
    else { Tool::NoTool }
}

/// Select a tool by id; ids outside 0 to 8 select no tool.
pub fn tool_from_id(id: u32) -> (r: Tool)
    ensures
        r == spec_tool_from_id(id),
{
    match id {
        1 => Tool::Wall,
        2 => Tool::EnergySource,
        3 => Tool::Nutrient,
        4 => Tool::Seed,
        5 => Tool::Toxin,
        6 => Tool::Remove,
        7 => Tool::HeatSource,
        8 => Tool::ColdSource,
        _ => Tool::NoTool,
    }
}

/// A brush radius clamped to the accepted maximum of 5.
pub open spec fn spec_clamp_brush_radius(r: u32) -> u32 {
    if r <= MAX_BRUSH { r } else { MAX_BRUSH }
}

/// Clamp a requested brush radius to the accepted maximum of 5.
pub fn clamp_brush_radius(r: u32) -> (c: u32)
    ensures
        c == spec_clamp_brush_radius(r),
        c <= MAX_BRUSH,
{
    if r <= MAX_BRUSH { r } else { MAX_BRUSH }
}

/// The next overlay mode when the overlay key cycles: one of four modes.
pub open spec fn spec_cycle_overlay(m: u32) -> u32 {
    ((m + 1) % 4) as u32
}

/// Advance the overlay mode by one, wrapping after the fourth.
pub fn cycle_overlay(m: u32) -> (r: u32)
    requires
        m < u32::MAX,
    ensures
        r == spec_cycle_overlay(m),
        r < 4,
{
    (m + 1) % 4
}

/// The command a stroke of the given tool at `(x, y, z)` queues, or none
/// when no tool is selected. The radius is clamped to 5 first.
pub open spec fn spec_command_for_tool(
    tool: Tool, x: u32, y: u32, z: u32, radius: u32,
) -> Option<(CommandType, u32)> {
    match tool {
        Tool::NoTool => None,
        Tool::Wall => Some((CommandType::PlaceVoxel, 1u32)),
        Tool::EnergySource => Some((CommandType::PlaceVoxel, 3u32)),
        Tool::Nutrient => Some((CommandType::PlaceVoxel, 2u32)),
        Tool::Seed => Some((CommandType::SeedProtocells, 500u32)),
        Tool::Toxin => Some((CommandType::ApplyToxin, 128u32)),
        Tool::Remove => Some((CommandType::RemoveVoxel, 0u32)),
        Tool::HeatSource => Some((CommandType::PlaceVoxel, 6u32)),
        Tool::ColdSource => Some((CommandType::PlaceVoxel, 7u32)),
    }
}

/// Build the command a tool stroke queues: a placement, seed, toxin or
/// removal around `(x, y, z)` with the clamped brush radius; no tool, no
/// command.
pub fn command_for_tool(tool: Tool, x: u32, y: u32, z: u32, radius: u32) -> (r: Option<Command>)
    ensures
        (r is Some) == (spec_command_for_tool(tool, x, y, z, radius) is Some),
        r is Some ==> {
            let (ct, p0) = spec_command_for_tool(tool, x, y, z, radius).unwrap();
            let c = r.unwrap();
            &&& c.command_type == spec_command_code(ct)
            &&& c.x == x && c.y == y && c.z == z
            &&& c.radius == spec_clamp_brush_radius(radius)
            &&& c.radius <= MAX_BRUSH
            &&& c.param_0 == p0
            &&& c.param_1 == 0
        },
{
    let rad = clamp_brush_radius(radius);
    match tool {
        Tool::NoTool => None,
        Tool::Wall => Some(Command::new(CommandType::PlaceVoxel, x, y, z, rad, 1, 0)),
        Tool::EnergySource => Some(Command::new(CommandType::PlaceVoxel, x, y, z, rad, 3, 0)),
        Tool::Nutrient => Some(Command::new(CommandType::PlaceVoxel, x, y, z, rad, 2, 0)),
        Tool::Seed => Some(Command::new(CommandType::SeedProtocells, x, y, z, rad, 500, 0)),
        Tool::Toxin => Some(Command::new(CommandType::ApplyToxin, x, y, z, rad, 128, 0)),
        Tool::Remove => Some(Command::new(CommandType::RemoveVoxel, x, y, z, rad, 0, 0)),
        Tool::HeatSource => Some(Command::new(CommandType::PlaceVoxel, x, y, z, rad, 6, 0)),
        Tool::ColdSource => Some(Command::new(CommandType::PlaceVoxel, x, y, z, rad, 7, 0)),
    }
}

} // verus!
