//! Statistics snapshot parsed from the 128-byte stats buffer.
//!
//! Layout, in 32-bit words: word 0 population, word 1 total energy, word 3
//! maximum energy, words 4..27 a species histogram of 12 slots, each a
//! (species id, count) pair; the rest is reserved.

use vstd::prelude::*;

verus! {

/// Number of slots in the species histogram.
pub const HISTOGRAM_SLOTS: usize = 12;

/// The populated histogram entries of a stats word block, in slot order:
/// pairs whose species id and count are both nonzero.
pub open spec fn spec_histogram_entries(ws: Seq<u32>) -> Seq<(u16, u32)> {
    spec_histogram_upto(ws, HISTOGRAM_SLOTS as int)
}

/// The populated entries of the first `n` histogram slots.
pub open spec fn spec_histogram_upto(ws: Seq<u32>, n: int) -> Seq<(u16, u32)>
    decreases n,
{
    if n <= 0 {
        Seq::empty()
    } else {
        let prev = spec_histogram_upto(ws, n - 1);
        let sid = (ws[4 + (n - 1) * 2] & 0xffff) as u16;
        let count = ws[5 + (n - 1) * 2];
        if sid != 0 && count > 0 {
            prev.push((sid, count))
        } else {
            prev
        }
    }
}

/// Histogram order: counts never increase along the sequence.
pub open spec fn sorted_by_count_desc(h: Seq<(u16, u32)>) -> bool {
    forall|a: int, b: int| 0 <= a < b < h.len() ==> (#[trigger] h[a]).1 >= (#[trigger] h[b]).1
}

/// Statistics readback snapshot.
#[derive(Debug, Clone)]
pub struct SimStats {
    pub population: u32,
    pub total_energy: u32,
    pub species_count: u32,
    pub max_energy: u32,
    /// (species id, member count) pairs, most numerous species first.
    pub species_histogram: Vec<(u16, u32)>,
}

impl SimStats {
    /// Parse a stats word block: the scalar fields are read directly, the
    /// histogram keeps exactly the populated slots, ordered by descending
    /// count, and the species count is the number of populated slots.
    pub fn from_words(words: &[u32; 32]) -> (r: Self)
        ensures
            r.population == words[0],
            r.total_energy == words[1],
            r.max_energy == words[3],
            r.species_count == r.species_histogram@.len(),
            r.species_histogram@.to_multiset()
                == spec_histogram_entries(words@).to_multiset(),
            sorted_by_count_desc(r.species_histogram@),
    {
        broadcast use vstd::seq_lib::group_to_multiset_ensures;

        let population = words[0];
        let total_energy = words[1];
        let max_energy = words[3];

        let mut collected: Vec<(u16, u32)> = Vec::new();
        let mut i: usize = 0;
        while i < HISTOGRAM_SLOTS
            invariant
                0 <= i <= HISTOGRAM_SLOTS,
                collected@ == spec_histogram_upto(words@, i as int),
                collected@.len() <= i,
            decreases HISTOGRAM_SLOTS - i,
        {
            let masked: u32 = words[4 + i * 2] & 0xffff;
            proof {
                let w = words@[4 + i as int * 2];
                assert((w & 0xffff) < 0x10000) by (bit_vector);
            }
            let sid = masked as u16;
            let count = words[5 + i * 2];
            if sid != 0 && count > 0 {
                collected.push((sid, count));
            }
            i += 1;
        }

        let ghost all = collected@;
        let mut histogram: Vec<(u16, u32)> = Vec::new();
        while collected.len() > 0
            invariant
                histogram@.to_multiset().add(collected@.to_multiset()) == all.to_multiset(),
                sorted_by_count_desc(histogram@),
                histogram@.len() > 0 ==> forall|k: int| 0 <= k < collected@.len()
                    ==> (#[trigger] collected@[k]).1 <= histogram@.last().1,
            decreases collected.len(),
        {
            let mut best: usize = 0;
            let mut j: usize = 1;
            while j < collected.len()
                invariant
                    0 <= best < collected@.len(),
                    best < j <= collected@.len(),
                    forall|k: int| 0 <= k < j
                        ==> (#[trigger] collected@[k]).1 <= collected@[best as int].1,
                decreases collected.len() - j,
            {
                if collected[j].1 > collected[best].1 {
                    best = j;
                }
                j += 1;
            }
            let ghost c0 = collected@;
            let picked = collected.remove(best);
            proof {
                broadcast use vstd::multiset::group_multiset_axioms;
                let h0 = histogram@;
                assert(c0[best as int] == picked);
                assert(c0.contains(picked));
                vstd::seq_lib::to_multiset_contains(c0, picked);
                vstd::seq_lib::to_multiset_remove(c0, best as int);
                vstd::seq_lib::to_multiset_build(h0, picked);
                assert(collected@ == c0.remove(best as int));
                assert(collected@.to_multiset() == c0.to_multiset().remove(picked));
                assert(h0.push(picked).to_multiset() =~= h0.to_multiset().insert(picked));
                assert(h0.to_multiset().insert(picked).add(c0.to_multiset().remove(picked))
                    =~= h0.to_multiset().add(c0.to_multiset()));
            }
            histogram.push(picked);
        }

        proof {
            broadcast use vstd::multiset::group_multiset_axioms;
            vstd::seq_lib::to_multiset_len(histogram@);
            vstd::seq_lib::to_multiset_len(all);
            vstd::seq_lib::to_multiset_len(collected@);
            assert(histogram@.len() == all.len());
        }
        let species_count = histogram.len() as u32;
        Self {
            population,
            total_energy,
            species_count,
            max_energy,
            species_histogram: histogram,
        }
    }
}

} // verus!
