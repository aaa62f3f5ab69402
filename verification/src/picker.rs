//! Point-query (pick) results: one voxel parsed out of a 32-byte readback.

use vstd::prelude::*;

verus! {

/// The published result of a voxel point query.
pub struct PickResult {
    pub x: u32,
    pub y: u32,
    pub z: u32,
    pub voxel_type: u8,
    pub energy: u16,
    pub age: u16,
    pub species_id: u16,
    pub genome: [u8; 16],
}

/// A 16-bit little-endian value read at byte offset `k`.
pub open spec fn spec_le16(data: Seq<u8>, k: int) -> u16 {
    (data[k] + data[k + 1] * 0x100) as u16
}

/// Parse one 32-byte voxel record into a pick result. The record is the
/// packed voxel layout: byte 0 the type tag, bytes 2-3 the energy, bytes
/// 4-5 the age, bytes 6-7 the species id, bytes 8-23 the genome.
pub fn parse_pick(data: &[u8], x: u32, y: u32, z: u32) -> (r: PickResult)
    requires
        data@.len() >= 32,
    ensures
        r.x == x && r.y == y && r.z == z,
        r.voxel_type == data@[0],
        r.energy == spec_le16(data@, 2),
        r.age == spec_le16(data@, 4),
        r.species_id == spec_le16(data@, 6),
        r.genome@ =~= data@.subrange(8, 24),
{
    let voxel_type = data[0];
    let energy = data[2] as u16 + (data[3] as u16) * 0x100;
    let age = data[4] as u16 + (data[5] as u16) * 0x100;
    let species_id = data[6] as u16 + (data[7] as u16) * 0x100;
    let genome = [
        data[8], data[9], data[10], data[11],
        data[12], data[13], data[14], data[15],
        data[16], data[17], data[18], data[19],
        data[20], data[21], data[22], data[23],
    ];
    PickResult {
        x,
        y,
        z,
        voxel_type,
        energy,
        age,
        species_id,
        genome,
    }
}

} // verus!
