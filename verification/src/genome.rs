//! 16-byte genome carried by every protocell, packed into 4 little-endian
//! 32-bit words for the GPU buffer layout, with a 16-bit species hash.

use vstd::prelude::*;

verus! {

/// A 32-bit word assembled from four bytes, little-endian.
pub open spec fn word_from_bytes(b0: u8, b1: u8, b2: u8, b3: u8) -> u32 {
    (b0 as u32) | ((b1 as u32) << 8) | ((b2 as u32) << 16) | ((b3 as u32) << 24)
}

/// Byte `k` (0 = lowest) of a 32-bit word.
pub open spec fn byte_of_word(w: u32, k: int) -> u8 {
    ((w >> ((8 * k) as u32)) & 0xff) as u8
}

/// The four words that a 16-byte sequence packs into, little-endian.
pub open spec fn spec_genome_words(bs: Seq<u8>) -> Seq<u32> {
    seq![
        word_from_bytes(bs[0], bs[1], bs[2], bs[3]),
        word_from_bytes(bs[4], bs[5], bs[6], bs[7]),
        word_from_bytes(bs[8], bs[9], bs[10], bs[11]),
        word_from_bytes(bs[12], bs[13], bs[14], bs[15]),
    ]
}

/// The 16 bytes recovered from four little-endian words.
pub open spec fn spec_genome_bytes(ws: Seq<u32>) -> Seq<u8> {
    seq![
        byte_of_word(ws[0], 0), byte_of_word(ws[0], 1), byte_of_word(ws[0], 2), byte_of_word(ws[0], 3),
        byte_of_word(ws[1], 0), byte_of_word(ws[1], 1), byte_of_word(ws[1], 2), byte_of_word(ws[1], 3),
        byte_of_word(ws[2], 0), byte_of_word(ws[2], 1), byte_of_word(ws[2], 2), byte_of_word(ws[2], 3),
        byte_of_word(ws[3], 0), byte_of_word(ws[3], 1), byte_of_word(ws[3], 2), byte_of_word(ws[3], 3),
    ]
}

/// Multiplication on `u32` that wraps modulo 2^32.
pub open spec fn wrap_mul32(a: u32, b: u32) -> u32 {
    (((a as int) * (b as int)) % 0x1_0000_0000) as u32
}

/// One multiply-xor-shift mixing round of the species hash.
pub open spec fn hash_round(x: u32, m: u32) -> u32 {
    wrap_mul32((x >> 8) ^ x, m)
}

/// The species hash of a genome: XOR of its four packed words, two
/// multiply-xor-shift rounds, a final fold to 16 bits, and 0 replaced by 1.
pub open spec fn spec_species_id(g: Genome) -> u16 {
    let ws = spec_genome_words(g.bytes@);
    let x0 = ws[0] ^ ws[1] ^ ws[2] ^ ws[3];
    let x1 = hash_round(x0, 0x6979);
    let x2 = hash_round(x1, 0x0235);
    let x3 = (x2 >> 16) ^ x2;
    let id = (x3 & 0xffff) as u16;
    if id == 0 { 1u16 } else { id }
}

/// 16-byte genome. Named byte slots give each heritable trait its place.
#[derive(Debug, Clone, Copy, PartialEq, Eq)]
pub struct Genome {
    pub bytes: [u8; 16],
}

impl Default for Genome {
    /// The all-zero genome.
    fn default() -> (r: Self)
        ensures
            forall|i: int| 0 <= i < 16 ==> r.bytes[i] == 0u8,
    {
        Self { bytes: [0; 16] }
    }
}

impl Genome {
    pub fn metabolic_efficiency(&self) -> (r: u8)
        ensures r == self.bytes[0],
    { self.bytes[0] }

    pub fn metabolic_rate(&self) -> (r: u8)
        ensures r == self.bytes[1],
    { self.bytes[1] }

    pub fn replication_threshold(&self) -> (r: u8)
        ensures r == self.bytes[2],
    { self.bytes[2] }

    pub fn mutation_rate(&self) -> (r: u8)
        ensures r == self.bytes[3],
    { self.bytes[3] }

    pub fn movement_bias(&self) -> (r: u8)
        ensures r == self.bytes[4],
    { self.bytes[4] }

    pub fn chemotaxis_strength(&self) -> (r: u8)
        ensures r == self.bytes[5],
    { self.bytes[5] }

    pub fn toxin_resistance(&self) -> (r: u8)
        ensures r == self.bytes[6],
    { self.bytes[6] }

    pub fn predation_capability(&self) -> (r: u8)
        ensures r == self.bytes[7],
    { self.bytes[7] }

    pub fn predation_aggression(&self) -> (r: u8)
        ensures r == self.bytes[8],
    { self.bytes[8] }

    pub fn photosynthetic_rate(&self) -> (r: u8)
        ensures r == self.bytes[9],
    { self.bytes[9] }

    pub fn energy_split_ratio(&self) -> (r: u8)
        ensures r == self.bytes[10],
    { self.bytes[10] }

    /// Pack the genome into 4 little-endian 32-bit words.
    pub fn to_words(&self) -> (r: [u32; 4])
        ensures
            r@ == spec_genome_words(self.bytes@),
    {
        let b = &self.bytes;
        let r = [
            (b[0] as u32) | ((b[1] as u32) << 8) | ((b[2] as u32) << 16) | ((b[3] as u32) << 24),
            (b[4] as u32) | ((b[5] as u32) << 8) | ((b[6] as u32) << 16) | ((b[7] as u32) << 24),
            (b[8] as u32) | ((b[9] as u32) << 8) | ((b[10] as u32) << 16) | ((b[11] as u32) << 24),
            (b[12] as u32) | ((b[13] as u32) << 8) | ((b[14] as u32) << 16) | ((b[15] as u32) << 24),
        ];
        proof {
            assert(r@ =~= spec_genome_words(self.bytes@));
        }
        r
    }

    /// Unpack a genome from 4 little-endian 32-bit words.
    pub fn from_words(words: [u32; 4]) -> (r: Self)
        ensures
            r.bytes@ == spec_genome_bytes(words@),
    {
        let bytes = [
            (words[0] & 0xff) as u8,
            ((words[0] >> 8) & 0xff) as u8,
            ((words[0] >> 16) & 0xff) as u8,
            ((words[0] >> 24) & 0xff) as u8,
            (words[1] & 0xff) as u8,
            ((words[1] >> 8) & 0xff) as u8,
            ((words[1] >> 16) & 0xff) as u8,
            ((words[1] >> 24) & 0xff) as u8,
            (words[2] & 0xff) as u8,
            ((words[2] >> 8) & 0xff) as u8,
            ((words[2] >> 16) & 0xff) as u8,
            ((words[2] >> 24) & 0xff) as u8,
            (words[3] & 0xff) as u8,
            ((words[3] >> 8) & 0xff) as u8,
            ((words[3] >> 16) & 0xff) as u8,
            ((words[3] >> 24) & 0xff) as u8,
        ];
        let r = Self { bytes };
        proof {
            lemma_shr_zero(words[0]);
            lemma_shr_zero(words[1]);
            lemma_shr_zero(words[2]);
            lemma_shr_zero(words[3]);
            assert(r.bytes@ =~= spec_genome_bytes(words@));
        }
        r
    }

    /// Species hash of the genome; never 0 (0 marks non-protocells), so a
    /// hash of 0 is replaced by 1.
    pub fn species_id(&self) -> (r: u16)
        ensures
            r == spec_species_id(*self),
            r != 0,
    {
        let words = self.to_words();
        let x0 = words[0] ^ words[1] ^ words[2] ^ words[3];
        let x1 = wrap_mul32_exec((x0 >> 8) ^ x0, 0x6979);
        let x2 = wrap_mul32_exec((x1 >> 8) ^ x1, 0x0235);
        let x3 = (x2 >> 16) ^ x2;
        let id = (x3 & 0xffff) as u16;
        if id == 0 { 1 } else { id }
    }
}

/// Multiply two `u32` values, wrapping modulo 2^32.
pub fn wrap_mul32_exec(a: u32, b: u32) -> (r: u32)
    ensures
        r == wrap_mul32(a, b),
{
    proof {
        assert((a as int) * (b as int) <= 0xffff_ffff * 0xffff_ffff) by (nonlinear_arith)
            requires (a as int) <= 0xffff_ffff && (b as int) <= 0xffff_ffff
                && 0 <= (a as int) && 0 <= (b as int);
    }
    (((a as u64) * (b as u64)) % 0x1_0000_0000u64) as u32
}

/// Unpacking the packed words restores every genome byte: the word
/// round trip is the identity on genomes.
pub proof fn lemma_genome_words_roundtrip(g: Genome)
    ensures
        spec_genome_bytes(spec_genome_words(g.bytes@)) =~= g.bytes@,
{
    lemma_word_bytes(g.bytes[0], g.bytes[1], g.bytes[2], g.bytes[3]);
    lemma_word_bytes(g.bytes[4], g.bytes[5], g.bytes[6], g.bytes[7]);
    lemma_word_bytes(g.bytes[8], g.bytes[9], g.bytes[10], g.bytes[11]);
    lemma_word_bytes(g.bytes[12], g.bytes[13], g.bytes[14], g.bytes[15]);
}

/// A species hash is never zero: a zero result is replaced by one.
pub proof fn lemma_species_id_nonzero(g: Genome)
    ensures
        spec_species_id(g) != 0,
{
}

/// Shifting right by zero changes nothing.
pub proof fn lemma_shr_zero(w: u32)
    by (bit_vector)
    ensures
        w >> 0 == w,
{
}

/// Each byte of a word assembled little-endian from four bytes is the byte
/// that was put there.
pub proof fn lemma_word_bytes(b0: u8, b1: u8, b2: u8, b3: u8)
    by (bit_vector)
    ensures
        byte_of_word(word_from_bytes(b0, b1, b2, b3), 0) == b0,
        byte_of_word(word_from_bytes(b0, b1, b2, b3), 1) == b1,
        byte_of_word(word_from_bytes(b0, b1, b2, b3), 2) == b2,
        byte_of_word(word_from_bytes(b0, b1, b2, b3), 3) == b3,
{
}

} // verus!
