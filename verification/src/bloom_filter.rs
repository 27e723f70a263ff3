//! A Bloom filter for string keys.
//!
//! The filter answers "might this key have been added?" from a fixed array of
//! bits. Each key owns `hash_count` positions in the array, derived from two
//! base hashes of the key by double hashing. Adding a key raises the bits at
//! its positions; a key might be present when all of its bits are raised. An
//! answer of `false` is therefore certain, an answer of `true` is not.

use crate::bit_storage::{
    allocatable, bits_of, lemma_equal_bits_equal_words, lemma_layout, packs, words_for,
    BitStorage,
};
use crate::error::SpiderError;
use crate::filter_state::{
    lemma_addition_raises_few_bits, lemma_probe_position_in_range, lemma_probed_step,
    probe_position, probed, raised_between, FilterState,
};
use crate::hashing::{base_hashes, first_hash, second_hash};
use vstd::arithmetic::div_mod::{
    lemma_add_mod_noop_right, lemma_mod_add_multiples_vanish, lemma_small_mod,
};
use vstd::prelude::*;

verus! {

/// A fixed-capacity probabilistic set of string keys.
pub struct BloomFilter {
    bits: BitStorage,
    hash_functions: usize,
}

impl View for BloomFilter {
    type V = FilterState;

    closed spec fn view(&self) -> FilterState {
        FilterState { bits: self.bits@, hash_count: self.hash_functions as nat }
    }
}

impl BloomFilter {
    /// The 64-bit words in which the bits of the filter are packed.
    pub closed spec fn words(&self) -> Seq<u64> {
        self.bits.words()
    }

    /// The bits are well packed, there is at least one of them, and every
    /// key is probed at least once.
    #[verifier::type_invariant]
    pub closed spec fn well_formed(&self) -> bool {
        self.bits.well_formed() && self.bits@.len() >= 1 && self.hash_functions >= 1
    }

    /// Makes an empty filter of `num_bits` bits that probes `hash_functions`
    /// times per key. A filter without bits is refused. The bits must fit
    /// in one allocation, which on a 64-bit machine they always do.
    pub fn new(num_bits: u64, hash_functions: usize) -> (made: Result<BloomFilter, SpiderError>)
        requires
            hash_functions >= 1,
            allocatable(num_bits as nat),
        ensures
            made is Err <==> num_bits == 0,
            made matches Ok(filter) ==> filter.well_formed() && filter@ == FilterState::empty(
                num_bits as nat,
                hash_functions as nat,
            ) && filter.words() == Seq::new(words_for(num_bits as nat), |i: int| 0u64),
            made matches Err(e) ==> e matches SpiderError::ConfigurationError(m) && m@
                == "a Bloom filter needs at least one bit"@,
    {
        if num_bits == 0 {
            return Err(
                SpiderError::ConfigurationError(
                    String::from_str("a Bloom filter needs at least one bit"),
                ),
            );
        }
        let bits = BitStorage::new(num_bits);
        Ok(BloomFilter { bits, hash_functions })
    }

    /// The index of the bit on which probe `i` of `item` falls.
    pub fn get_bit_index(&self, item: &str, i: usize) -> (index: u64)
        ensures
            self.well_formed(),
            index == probe_position(
                first_hash(item@),
                second_hash(item@),
                i as nat,
                self@.num_bits(),
            ),
            index < self@.num_bits(),
    {
        let hashes = base_hashes(item);
        self.bit_index_for_hashes(hashes.0, hashes.1, i)
    }

    /// The index of the bit on which probe `i` of a key with base hashes
    /// `h1` and `h2` falls.
    pub fn bit_index_for_hashes(&self, h1: u64, h2: u64, i: usize) -> (index: u64)
        ensures
            self.well_formed(),
            index == probe_position(h1, h2, i as nat, self@.num_bits()),
            index < self@.num_bits(),
    {
        proof {
            use_type_invariant(self);
        }
        let num_bits: u64 = self.bits.num_bits();
        let step: u64 = (i as u64).wrapping_mul(h2);
        let combined: u64 = h1.wrapping_add(step);
        proof {
            let range = 0x1_0000_0000_0000_0000int;
            assert(step == (i * h2) % range);
            assert(combined == (h1 + step) % range) by {
                if h1 + step > u64::MAX {
                    lemma_small_mod((h1 + step - range) as nat, range as nat);
                    lemma_mod_add_multiples_vanish(h1 + step - range, range);
                } else {
                    lemma_small_mod((h1 + step) as nat, range as nat);
                }
            }
            lemma_add_mod_noop_right(h1 as int, i * h2, range);
            lemma_probe_position_in_range(h1, h2, i as nat, num_bits as nat);
        }
        combined % num_bits
    }

    /// Adds a key given by its base hashes.
    pub fn add_hashes(&mut self, h1: u64, h2: u64)
        ensures
            old(self).well_formed(),
            final(self).well_formed(),
            final(self)@ == old(self)@.with_hashes(h1, h2),
    {
        proof {
            use_type_invariant(&*self);
        }
        let count: usize = self.hash_functions;
        let mut i: usize = 0;
        while i < count
            invariant
                i <= count,
                count == self.hash_functions,
                self@.hash_count == old(self)@.hash_count,
                self@.bits.len() == old(self)@.bits.len(),
                self@.bits.len() >= 1,
                forall|p: int|
                    0 <= p < self@.bits.len() ==> #[trigger] self@.bits[p] == (old(self)@.bits[p]
                        || probed(h1, h2, i as nat, self@.bits.len(), p)),
            decreases count - i,
        {
            let index: u64 = self.bit_index_for_hashes(h1, h2, i);
            let ghost before = self@;
            self.bits.set_bit(index);
            proof {
                assert forall|p: int| 0 <= p < self@.bits.len() implies #[trigger] self@.bits[p]
                    == (old(self)@.bits[p] || probed(
                    h1,
                    h2,
                    (i + 1) as nat,
                    self@.bits.len(),
                    p,
                )) by {
                    lemma_probed_step(h1, h2, i as nat, before.bits.len(), p);
                }
            }
            i = i + 1;
        }
        proof {
            use_type_invariant(&*self);
            assert(self@.bits =~= old(self)@.with_hashes(h1, h2).bits);
        }
    }

    /// Whether a key given by its base hashes might have been added.
    pub fn might_contain_hashes(&self, h1: u64, h2: u64) -> (found: bool)
        ensures
            self.well_formed(),
            found == self@.might_contain_hashes(h1, h2),
    {
        proof {
            use_type_invariant(self);
        }
        let count: usize = self.hash_functions;
        let mut i: usize = 0;
        while i < count
            invariant
                i <= count,
                count == self.hash_functions,
                forall|j: nat|
                    j < i ==> self@.bits[#[trigger] probe_position(h1, h2, j, self@.bits.len())
                        as int],
            decreases count - i,
        {
            let index: u64 = self.bit_index_for_hashes(h1, h2, i);
            if !self.bits.test_bit(index) {
                assert(!self@.bits[probe_position(h1, h2, i as nat, self@.bits.len()) as int]);
                return false;
            }
            i = i + 1;
        }
        true
    }

    /// Adds `item` to the filter: the bits at its probe positions are raised.
    /// Bits that were raised before stay raised, and at most as many bits
    /// change as the filter makes probes.
    pub fn add(&mut self, item: &str)
        ensures
            old(self).well_formed(),
            final(self).well_formed(),
            final(self)@ == old(self)@.with_key(item@),
            forall|p: int|
                0 <= p < old(self)@.bits.len() && old(self)@.bits[p] ==> final(self)@.bits[p],
            raised_between(old(self)@, final(self)@).finite(),
            raised_between(old(self)@, final(self)@).len() <= old(self)@.hash_count,
    {
        let hashes = base_hashes(item);
        self.add_hashes(hashes.0, hashes.1);
        proof {
            lemma_addition_raises_few_bits(old(self)@, item@);
        }
    }

    /// Whether `item` might have been added. `false` means that it certainly
    /// was not; `true` may be owed to the bits of other keys.
    pub fn might_contain(&self, item: &str) -> (found: bool)
        ensures
            self.well_formed(),
            found == self@.might_contain(item@),
    {
        let hashes = base_hashes(item);
        self.might_contain_hashes(hashes.0, hashes.1)
    }
}

/// The layout of a filter: its state is well formed, it has as many words
/// as its bits need, no bit past its capacity is raised in them, and bit `i`
/// of the filter is bit `i % 64` of word `i / 64`.
pub proof fn lemma_filter_layout(filter: BloomFilter)
    requires
        filter.well_formed(),
    ensures
        filter@.well_formed(),
        packs(filter.words(), filter@.num_bits()),
        filter@.bits == bits_of(filter.words(), filter@.num_bits()),
{
    lemma_layout(filter.bits);
}

/// The state determines the representation: two filters with the same
/// bits hold them in the same words.
pub proof fn lemma_equal_states_equal_words(a: BloomFilter, b: BloomFilter)
    requires
        a.well_formed(),
        b.well_formed(),
        a@ == b@,
    ensures
        a.words() == b.words(),
{
    lemma_equal_bits_equal_words(a.bits, b.bits);
}

} // verus!
