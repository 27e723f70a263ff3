//! A fixed-length array of bits, packed into 64-bit words.

use vstd::prelude::*;

verus! {

/// Whether bit `bit` of `word` is one. Bits are counted from the least
/// significant end; `bit` is expected to be below 64.
pub open spec fn word_bit(word: u64, bit: u64) -> bool {
    (word >> bit) & 1 == 1
}

/// Number of words needed to hold `num_bits` bits.
pub open spec fn words_for(num_bits: nat) -> nat {
    ((num_bits + 63) / 64) as nat
}

/// Whether the words of `num_bits` bits fit in one allocation: a vector
/// holds at most `isize::MAX` bytes, and a word takes eight.
pub open spec fn allocatable(num_bits: nat) -> bool {
    words_for(num_bits) * 8 <= isize::MAX
}

proof fn lemma_zero_word_has_no_bits(bit: u64)
    requires
        bit < 64,
    ensures
        !word_bit(0, bit),
{
    assert(!word_bit(0, bit)) by (bit_vector)
        requires
            bit < 64,
    ;
}

proof fn lemma_or_sets_one_bit(word: u64, bit: u64, other: u64)
    requires
        bit < 64,
        other < 64,
    ensures
        word_bit(word | (1u64 << bit), other) == (word_bit(word, other) || other == bit),
{
    assert(word_bit(word | (1u64 << bit), other) == (word_bit(word, other) || other == bit))
        by (bit_vector)
        requires
            bit < 64,
            other < 64,
    ;
}

proof fn lemma_mask_tests_one_bit(word: u64, bit: u64)
    requires
        bit < 64,
    ensures
        (word & (1u64 << bit) != 0) == word_bit(word, bit),
{
    assert((word & (1u64 << bit) != 0) == word_bit(word, bit)) by (bit_vector)
        requires
            bit < 64,
    ;
}

/// The `n` lowest bits of `word`, the others cleared.
spec fn low_bits(word: u64, n: u64) -> u64 {
    if n >= 64 {
        word
    } else {
        word & (((1u64 << n) - 1) as u64)
    }
}

proof fn lemma_low_bits_step(a: u64, b: u64, n: u64)
    requires
        n < 64,
        low_bits(a, n) == low_bits(b, n),
        word_bit(a, n) == word_bit(b, n),
    ensures
        low_bits(a, (n + 1) as u64) == low_bits(b, (n + 1) as u64),
{
    assert(low_bits(a, (n + 1) as u64) == low_bits(b, (n + 1) as u64)) by (bit_vector)
        requires
            n < 64,
            low_bits(a, n) == low_bits(b, n),
            word_bit(a, n) == word_bit(b, n),
    ;
}

proof fn lemma_low_bits_agree(a: u64, b: u64, n: u64)
    requires
        n <= 64,
        forall|bit: u64| bit < n ==> word_bit(a, bit) == word_bit(b, bit),
    ensures
        low_bits(a, n) == low_bits(b, n),
    decreases n,
{
    if n == 0 {
        assert(low_bits(a, 0) == low_bits(b, 0)) by (bit_vector);
    } else {
        let m = (n - 1) as u64;
        lemma_low_bits_agree(a, b, m);
        lemma_low_bits_step(a, b, m);
    }
}

/// Two words that agree on each of their 64 bits are the same word.
proof fn lemma_words_with_equal_bits_are_equal(a: u64, b: u64)
    requires
        forall|bit: u64| bit < 64 ==> word_bit(a, bit) == word_bit(b, bit),
    ensures
        a == b,
{
    lemma_low_bits_agree(a, b, 64);
}

/// The bits that `words` hold when the first `num_bits` of them count.
pub open spec fn bits_of(words: Seq<u64>, num_bits: nat) -> Seq<bool> {
    Seq::new(num_bits, |i: int| word_bit(words[i / 64], (i % 64) as u64))
}

/// The words are exactly as many as `num_bits` bits need, and the bits of
/// the last word that lie past `num_bits` are zero.
pub open spec fn packs(words: Seq<u64>, num_bits: nat) -> bool {
    &&& words.len() == words_for(num_bits)
    &&& forall|i: int|
        num_bits <= i < 64 * words.len() ==> !word_bit(#[trigger] words[i / 64], (i % 64) as u64)
}

fn raise_bit(words: &mut Vec<u64>, num_bits: u64, index: u64)
    requires
        packs(old(words)@, num_bits as nat),
        index < num_bits,
    ensures
        packs(final(words)@, num_bits as nat),
        bits_of(final(words)@, num_bits as nat) == bits_of(old(words)@, num_bits as nat).update(
            index as int,
            true,
        ),
    no_unwind
{
    assert(index / 64 < words.len());
    let word: usize = (index / 64) as usize;
    let bit: u64 = index % 64;
    let before: u64 = words[word];
    words[word] = before | (1u64 << bit);
    proof {
        assert forall|i: int| 0 <= i < 64 * words@.len() implies word_bit(
            #[trigger] words@[i / 64],
            (i % 64) as u64,
        ) == (word_bit(old(words)@[i / 64], (i % 64) as u64) || i == index) by {
            if i / 64 == word {
                lemma_or_sets_one_bit(before, bit, (i % 64) as u64);
            }
        }
        assert(bits_of(words@, num_bits as nat) =~= bits_of(old(words)@, num_bits as nat).update(
            index as int,
            true,
        ));
    }
}

/// A packed array of bits whose length is fixed when it is made.
///
/// Every bit starts at zero and can only be raised; nothing lowers one.
pub struct BitStorage {
    words: Vec<u64>,
    num_bits: u64,
}

impl View for BitStorage {
    type V = Seq<bool>;

    /// The bits, one `bool` for each, in the order of their indices.
    closed spec fn view(&self) -> Seq<bool> {
        bits_of(self.words@, self.num_bits as nat)
    }
}

impl BitStorage {
    /// The words in which the bits are packed: bit `i` of the storage is bit
    /// `i % 64` of word `i / 64`.
    pub closed spec fn words(&self) -> Seq<u64> {
        self.words@
    }

    /// The words are exactly as many as the bits need, and the bits of the
    /// last word that lie past the capacity are zero.
    #[verifier::type_invariant]
    pub closed spec fn well_formed(&self) -> bool {
        packs(self.words@, self.num_bits as nat)
    }

    /// A storage of `num_bits` bits, all zero.
    pub fn new(num_bits: u64) -> (storage: BitStorage)
        requires
            allocatable(num_bits as nat),
        ensures
            storage.well_formed(),
            storage@ == Seq::new(num_bits as nat, |i: int| false),
            storage.words() == Seq::new(words_for(num_bits as nat), |i: int| 0u64),
    {
        let len: usize = (num_bits / 64 + if num_bits % 64 == 0 { 0 } else { 1 }) as usize;
        let words: Vec<u64> = vec![0u64; len];
        proof {
            assert forall|i: int| 0 <= i < 64 * len implies !word_bit(
                #[trigger] words@[i / 64],
                (i % 64) as u64,
            ) by {
                lemma_zero_word_has_no_bits((i % 64) as u64);
            }
            assert(bits_of(words@, num_bits as nat) =~= Seq::new(num_bits as nat, |i: int| false));
            assert(words@ =~= Seq::new(words_for(num_bits as nat), |i: int| 0u64));
        }
        BitStorage { words, num_bits }
    }

    /// The number of bits.
    pub fn num_bits(&self) -> (n: u64)
        ensures
            self.well_formed(),
            n == self@.len(),
    {
        proof {
            use_type_invariant(self);
        }
        self.num_bits
    }

    /// Raises the bit at `index`; a bit that is already one stays one.
    pub fn set_bit(&mut self, index: u64)
        requires
            index < old(self)@.len(),
        ensures
            final(self).well_formed(),
            final(self)@ == old(self)@.update(index as int, true),
        no_unwind
    {
        proof {
            use_type_invariant(&*self);
        }
        raise_bit(&mut self.words, self.num_bits, index);
    }

    /// Whether the bit at `index` is one.
    pub fn test_bit(&self, index: u64) -> (is_set: bool)
        requires
            index < self@.len(),
        ensures
            is_set == self@[index as int],
    {
        proof {
            use_type_invariant(self);
        }
        assert(index / 64 < self.words.len());
        let word: usize = (index / 64) as usize;
        let bit: u64 = index % 64;
        proof {
            lemma_mask_tests_one_bit(self.words@[word as int], bit);
        }
        self.words[word] & (1u64 << bit) != 0
    }
}

/// The layout of a storage: it has as many words as its bits need, no bit
/// past its capacity is raised in them, and bit `i` of the storage is bit
/// `i % 64` of word `i / 64`.
pub proof fn lemma_layout(storage: BitStorage)
    requires
        storage.well_formed(),
    ensures
        packs(storage.words(), storage@.len()),
        storage@ == bits_of(storage.words(), storage@.len()),
{
}

/// The bits determine the words: two storages that hold the same bits are
/// packed into the same words.
pub proof fn lemma_equal_bits_equal_words(a: BitStorage, b: BitStorage)
    requires
        a.well_formed(),
        b.well_formed(),
        a@ == b@,
    ensures
        a.words() == b.words(),
{
    assert(a.num_bits == b.num_bits) by {
        assert(a@.len() == a.num_bits && b@.len() == b.num_bits);
    }
    let n = a.num_bits as int;
    assert forall|w: int| 0 <= w < a.words@.len() implies a.words@[w] == b.words@[w] by {
        assert forall|bit: u64| bit < 64 implies word_bit(a.words@[w], bit) == word_bit(
            b.words@[w],
            bit,
        ) by {
            let i = 64 * w + bit;
            assert(i / 64 == w && i % 64 == bit);
            if i < n {
                assert(a@[i] == word_bit(a.words@[i / 64], (i % 64) as u64));
                assert(b@[i] == word_bit(b.words@[i / 64], (i % 64) as u64));
            }
        }
        lemma_words_with_equal_bits_are_equal(a.words@[w], b.words@[w]);
    }
    assert(a.words@ =~= b.words@);
}

} // verus!
