//! Packed voxel record: 32 bytes = 8 x 32-bit words.
//!
//! Word 0: bits 0-7 type tag, bits 8-15 flags, bits 16-31 energy.
//! Word 1: bits 0-15 age, bits 16-31 species id.
//! Words 2-5: genome (16 bytes). Words 6-7: reserved per-type state.

use vstd::prelude::*;
use crate::genome::{Genome, spec_genome_words, spec_genome_bytes, lemma_genome_words_roundtrip};

verus! {

/// Voxel variant tags, one per grid cell kind.
#[derive(Debug, Clone, Copy, PartialEq, Eq, Structural)]
pub enum VoxelType {
    Empty,
    Wall,
    Nutrient,
    EnergySource,
    Protocell,
    Waste,
    HeatSource,
    ColdSource,
}

/// The tag byte a voxel type packs to.
pub open spec fn spec_type_code(t: VoxelType) -> u8 {
    match t {
        VoxelType::Empty => 0,
        VoxelType::Wall => 1,
        VoxelType::Nutrient => 2,
        VoxelType::EnergySource => 3,
        VoxelType::Protocell => 4,
        VoxelType::Waste => 5,
        VoxelType::HeatSource => 6,
        VoxelType::ColdSource => 7,
    }
}

/// The voxel type a tag byte decodes to; unknown tags decode to `Empty`.
pub open spec fn spec_type_from_u8(v: u8) -> VoxelType {
    if v == 1 { VoxelType::Wall }
    else if v == 2 { VoxelType::Nutrient }
    else if v == 3 { VoxelType::EnergySource }
    else if v == 4 { VoxelType::Protocell }
    else if v == 5 { VoxelType::Waste }
    else if v == 6 { VoxelType::HeatSource }
    else if v == 7 { VoxelType::ColdSource }
    else { VoxelType::Empty }
}

impl VoxelType {
    /// The tag byte of this voxel type.
    pub fn code(self) -> (r: u8)
        ensures
            r == spec_type_code(self),
            r < 8,
    {
        match self {
            VoxelType::Empty => 0,
            VoxelType::Wall => 1,
            VoxelType::Nutrient => 2,
            VoxelType::EnergySource => 3,
            VoxelType::Protocell => 4,
            VoxelType::Waste => 5,
            VoxelType::HeatSource => 6,
            VoxelType::ColdSource => 7,
        }
    }

    /// Decode a tag byte; out-of-range tags decode to `Empty`.
    pub fn from_u8(v: u8) -> (r: Self)
        ensures
            r == spec_type_from_u8(v),
    {
        match v {
            1 => Self::Wall,
            2 => Self::Nutrient,
            3 => Self::EnergySource,
            4 => Self::Protocell,
            5 => Self::Waste,
            6 => Self::HeatSource,
            7 => Self::ColdSource,
            _ => Self::Empty,
        }
    }
}

/// Decoding the tag byte of a voxel type restores the type.
pub proof fn lemma_type_code_roundtrip(t: VoxelType)
    ensures
        spec_type_from_u8(spec_type_code(t)) == t,
{
}

/// A single voxel: the complete state of one grid cell.
#[derive(Debug, Clone, Copy, PartialEq, Eq)]
pub struct Voxel {
    pub voxel_type: VoxelType,
    pub flags: u8,
    pub energy: u16,
    pub age: u16,
    pub species_id: u16,
    pub genome: Genome,
    pub extra: [u32; 2],
}

/// Word 0 of the packed layout: type tag, flags, energy.
pub open spec fn spec_word0(v: Voxel) -> u32 {
    (spec_type_code(v.voxel_type) as u32)
        | ((v.flags as u32) << 8)
        | ((v.energy as u32) << 16)
}

/// Word 1 of the packed layout: age, species id.
pub open spec fn spec_word1(v: Voxel) -> u32 {
    (v.age as u32) | ((v.species_id as u32) << 16)
}

/// The eight words a voxel packs into.
pub open spec fn spec_pack(v: Voxel) -> Seq<u32> {
    let gw = spec_genome_words(v.genome.bytes@);
    seq![
        spec_word0(v),
        spec_word1(v),
        gw[0], gw[1], gw[2], gw[3],
        v.extra[0], v.extra[1],
    ]
}

/// A `[u8; 16]` whose elements are those of a 16-byte sequence.
pub open spec fn arr16_of(bs: Seq<u8>) -> [u8; 16]
    recommends bs.len() == 16,
{
    arr16_prefix(bs, 16)
}

/// Helper for `arr16_of`: the first `n` slots filled in, the rest zero.
pub open spec fn arr16_prefix(bs: Seq<u8>, n: int) -> [u8; 16]
    decreases n,
{
    if n <= 0 {
        vstd::array::spec_array_fill_for_copy_type::<u8, 16>(0u8)
    } else {
        vstd::array::spec_array_update(arr16_prefix(bs, n - 1), n - 1, bs[n - 1])
    }
}

/// A `[u32; 2]` holding the two given words.
pub open spec fn arr2_of(a: u32, b: u32) -> [u32; 2] {
    vstd::array::spec_array_update(
        vstd::array::spec_array_update(
            vstd::array::spec_array_fill_for_copy_type::<u32, 2>(0u32), 0, a),
        1, b)
}

/// The elements of `arr16_of(bs)` are those of `bs`.
pub proof fn lemma_arr16_of_view(bs: Seq<u8>)
    requires
        bs.len() == 16,
    ensures
        arr16_of(bs)@ =~= bs,
{
    broadcast use vstd::array::group_array_axioms;
    lemma_arr16_prefix_view(bs, 16);
}

proof fn lemma_arr16_prefix_view(bs: Seq<u8>, n: int)
    requires
        bs.len() == 16,
        0 <= n <= 16,
    ensures
        forall|i: int| 0 <= i < n ==> arr16_prefix(bs, n)@[i] == bs[i],
    decreases n,
{
    broadcast use vstd::array::group_array_axioms;
    if n > 0 {
        lemma_arr16_prefix_view(bs, n - 1);
    }
}

/// The voxel recovered from eight packed words.
pub open spec fn spec_unpack(ws: Seq<u32>) -> Voxel {
    Voxel {
        voxel_type: spec_type_from_u8((ws[0] & 0xff) as u8),
        flags: ((ws[0] >> 8) & 0xff) as u8,
        energy: ((ws[0] >> 16) & 0xffff) as u16,
        age: (ws[1] & 0xffff) as u16,
        species_id: ((ws[1] >> 16) & 0xffff) as u16,
        genome: Genome { bytes: arr16_of(spec_genome_bytes(ws.subrange(2, 6))) },
        extra: arr2_of(ws[6], ws[7]),
    }
}

impl Default for Voxel {
    /// The all-empty voxel.
    fn default() -> (r: Self)
        ensures
            r == spec_empty_voxel(),
    {
        Voxel::empty()
    }
}

impl Voxel {
    /// The all-empty voxel that unoccupied cells hold.
    pub fn empty() -> (r: Self)
        ensures
            r == spec_empty_voxel(),
    {
        let r = Voxel {
            voxel_type: VoxelType::Empty,
            flags: 0,
            energy: 0,
            age: 0,
            species_id: 0,
            genome: Genome { bytes: [0; 16] },
            extra: [0; 2],
        };
        proof {
            broadcast use vstd::array::group_array_axioms;
            lemma_arr16_of_view(seq![0u8; 16]);
            assert(r.genome.bytes@ =~= seq![0u8; 16]);
            assert(r.genome.bytes =~= spec_empty_voxel().genome.bytes);
            assert(r.extra =~= spec_empty_voxel().extra);
        }
        r
    }

    /// Pack the voxel into 8 words matching the GPU buffer layout.
    pub fn pack(&self) -> (r: [u32; 8])
        ensures
            r@ == spec_pack(*self),
    {
        let t = self.voxel_type.code();
        let w0 = (t as u32) | ((self.flags as u32) << 8) | ((self.energy as u32) << 16);
        let w1 = (self.age as u32) | ((self.species_id as u32) << 16);
        let gw = self.genome.to_words();
        let r = [w0, w1, gw[0], gw[1], gw[2], gw[3], self.extra[0], self.extra[1]];
        proof {
            assert(r@ =~= spec_pack(*self));
        }
        r
    }

    /// Unpack a voxel from 8 words.
    pub fn unpack(words: [u32; 8]) -> (r: Self)
        ensures
            r == spec_unpack(words@),
    {
        let voxel_type = VoxelType::from_u8((words[0] & 0xff) as u8);
        let flags = ((words[0] >> 8) & 0xff) as u8;
        let energy = ((words[0] >> 16) & 0xffff) as u16;
        let age = (words[1] & 0xffff) as u16;
        let species_id = ((words[1] >> 16) & 0xffff) as u16;
        let gws = [words[2], words[3], words[4], words[5]];
        let genome = Genome::from_words(gws);
        let extra = [words[6], words[7]];
        let r = Self { voxel_type, flags, energy, age, species_id, genome, extra };
        proof {
            broadcast use vstd::array::group_array_axioms;
            let ws = words@;
            assert(gws@ =~= ws.subrange(2, 6));
            lemma_arr16_of_view(spec_genome_bytes(ws.subrange(2, 6)));
            assert(r.genome.bytes =~= spec_unpack(ws).genome.bytes);
            assert(r.extra =~= spec_unpack(ws).extra);
        }
        r
    }
}

/// The voxel every unoccupied cell holds.
pub open spec fn spec_empty_voxel() -> Voxel {
    Voxel {
        voxel_type: VoxelType::Empty,
        flags: 0,
        energy: 0,
        age: 0,
        species_id: 0,
        genome: Genome { bytes: arr16_of(seq![0u8; 16]) },
        extra: arr2_of(0, 0),
    }
}

/// Bit-level facts about word 0: each packed field reads back exactly.
proof fn lemma_word0_fields(t: u8, f: u8, e: u16)
    by (bit_vector)
    requires
        t < 8,
    ensures
        (((t as u32) | ((f as u32) << 8) | ((e as u32) << 16)) & 0xff) as u8 == t,
        ((((t as u32) | ((f as u32) << 8) | ((e as u32) << 16)) >> 8) & 0xff) as u8 == f,
        ((((t as u32) | ((f as u32) << 8) | ((e as u32) << 16)) >> 16) & 0xffff) as u16 == e,
{
}

/// Bit-level facts about word 1: age and species id read back exactly.
proof fn lemma_word1_fields(age: u16, sid: u16)
    by (bit_vector)
    ensures
        (((age as u32) | ((sid as u32) << 16)) & 0xffff) as u16 == age,
        ((((age as u32) | ((sid as u32) << 16)) >> 16) & 0xffff) as u16 == sid,
{
}

/// Packing is lossless: unpacking the packed words restores the voxel, and
/// packing the restored voxel gives the same words again.
pub proof fn lemma_voxel_pack_roundtrip(v: Voxel)
    ensures
        spec_unpack(spec_pack(v)) == v,
        spec_pack(spec_unpack(spec_pack(v))) == spec_pack(v),
{
    broadcast use vstd::array::group_array_axioms;
    let ws = spec_pack(v);
    lemma_word0_fields(spec_type_code(v.voxel_type), v.flags, v.energy);
    lemma_word1_fields(v.age, v.species_id);
    lemma_type_code_roundtrip(v.voxel_type);
    assert(ws.subrange(2, 6) =~= spec_genome_words(v.genome.bytes@));
    lemma_genome_words_roundtrip(v.genome);
    lemma_arr16_of_view(spec_genome_bytes(ws.subrange(2, 6)));
    assert(spec_unpack(ws).genome.bytes =~= v.genome.bytes);
    assert(spec_unpack(ws).extra =~= v.extra);
    assert(spec_unpack(ws) == v);
}

} // verus!
