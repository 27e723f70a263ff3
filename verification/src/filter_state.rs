//! The mathematical model of a Bloom filter, and what holds of it.
//!
//! A filter is described by its bits and by the number of probes that it
//! makes for each key. The functions here say where the probes of a key fall,
//! what adding a key does to the bits, and when a key might be present. The
//! lemmas at the end state the properties that make the filter usable in
//! front of an exact set.

use crate::hashing::{first_hash, second_hash};
use vstd::arithmetic::div_mod::lemma_mod_bound;
use vstd::prelude::*;
use vstd::set_lib::{lemma_int_range, lemma_len_subset, lemma_len_union, set_int_range};

verus! {

/// The position of probe `i` of a key with base hashes `h1` and `h2` in an
/// array of `num_bits` bits: `h1 + i * h2`, taken modulo 2^64 and then modulo
/// `num_bits`.
pub open spec fn probe_position(h1: u64, h2: u64, i: nat, num_bits: nat) -> nat
    recommends
        num_bits > 0,
{
    (((h1 + i * h2) % 0x1_0000_0000_0000_0000) % (num_bits as int)) as nat
}

/// Whether one of the first `count` probes of `(h1, h2)` falls on position `p`.
pub open spec fn probed(h1: u64, h2: u64, count: nat, num_bits: nat, p: int) -> bool {
    exists|i: nat| i < count && #[trigger] probe_position(h1, h2, i, num_bits) == p
}

/// Every probe position lies inside the array.
pub proof fn lemma_probe_position_in_range(h1: u64, h2: u64, i: nat, num_bits: nat)
    requires
        num_bits > 0,
    ensures
        probe_position(h1, h2, i, num_bits) < num_bits,
{
    lemma_mod_bound((h1 + i * h2) % 0x1_0000_0000_0000_0000, num_bits as int);
}

/// One more probe reaches the positions of the probes before it, and its own.
pub proof fn lemma_probed_step(h1: u64, h2: u64, count: nat, num_bits: nat, p: int)
    ensures
        probed(h1, h2, count + 1, num_bits, p) <==> probed(h1, h2, count, num_bits, p)
            || probe_position(h1, h2, count, num_bits) == p,
{
    if probed(h1, h2, count + 1, num_bits, p) {
        let i = choose|i: nat| i < count + 1 && #[trigger] probe_position(h1, h2, i, num_bits) == p;
        if i < count {
            assert(probed(h1, h2, count, num_bits, p));
        }
    }
    if probed(h1, h2, count, num_bits, p) {
        let i = choose|i: nat| i < count && #[trigger] probe_position(h1, h2, i, num_bits) == p;
        assert(i < count + 1);
    }
    if probe_position(h1, h2, count, num_bits) == p {
        assert(count < count + 1);
    }
}

/// What a filter is, apart from how its bits are packed: the bits and the
/// number of probes per key.
pub struct FilterState {
    pub bits: Seq<bool>,
    pub hash_count: nat,
}

impl FilterState {
    /// The capacity of the filter in bits.
    pub open spec fn num_bits(self) -> nat {
        self.bits.len()
    }

    /// A filter has at least one bit and probes at least once per key.
    pub open spec fn well_formed(self) -> bool {
        self.bits.len() >= 1 && self.hash_count >= 1
    }

    /// The filter to which nothing has been added.
    pub open spec fn empty(num_bits: nat, hash_count: nat) -> FilterState {
        FilterState { bits: Seq::new(num_bits, |p: int| false), hash_count }
    }

    /// The state after a key with base hashes `h1` and `h2` has been added:
    /// the bits at its probe positions are raised, the others are as before.
    pub open spec fn with_hashes(self, h1: u64, h2: u64) -> FilterState {
        FilterState {
            bits: Seq::new(
                self.bits.len(),
                |p: int| self.bits[p] || probed(h1, h2, self.hash_count, self.bits.len(), p),
            ),
            hash_count: self.hash_count,
        }
    }

    /// Whether the bits at all probe positions of `(h1, h2)` are raised.
    pub open spec fn might_contain_hashes(self, h1: u64, h2: u64) -> bool {
        forall|i: nat|
            i < self.hash_count ==> self.bits[#[trigger] probe_position(
                h1,
                h2,
                i,
                self.bits.len(),
            ) as int]
    }

    /// The state after `key` has been added.
    pub open spec fn with_key(self, key: Seq<char>) -> FilterState {
        self.with_hashes(first_hash(key), second_hash(key))
    }

    /// The state after the keys of `keys` have been added, first to last.
    pub open spec fn with_keys(self, keys: Seq<Seq<char>>) -> FilterState
        decreases keys.len(),
    {
        if keys.len() == 0 {
            self
        } else {
            self.with_keys(keys.drop_last()).with_key(keys.last())
        }
    }

    /// Whether `key` might have been added: no bit of its probes is zero.
    pub open spec fn might_contain(self, key: Seq<char>) -> bool {
        self.might_contain_hashes(first_hash(key), second_hash(key))
    }
}

/// Whether one of the probes that `state` makes for `key` falls on `p`.
pub open spec fn key_probes(state: FilterState, key: Seq<char>, p: int) -> bool {
    probed(first_hash(key), second_hash(key), state.hash_count, state.bits.len(), p)
}

/// After a run of additions the filter has the shape it had, and a bit is
/// raised exactly if it was raised before or one of the added keys probes it.
pub proof fn lemma_bits_after_additions(state: FilterState, keys: Seq<Seq<char>>)
    ensures
        state.with_keys(keys).hash_count == state.hash_count,
        state.with_keys(keys).bits.len() == state.bits.len(),
        forall|p: int|
            0 <= p < state.bits.len() ==> #[trigger] state.with_keys(keys).bits[p] == (
            state.bits[p] || exists|j: int|
                0 <= j < keys.len() && key_probes(state, #[trigger] keys[j], p)),
    decreases keys.len(),
{
    if keys.len() > 0 {
        let front = keys.drop_last();
        let mid = state.with_keys(front);
        lemma_bits_after_additions(state, front);
        assert forall|p: int| 0 <= p < state.bits.len() implies #[trigger] state.with_keys(
            keys,
        ).bits[p] == (state.bits[p] || exists|j: int|
            0 <= j < keys.len() && key_probes(state, #[trigger] keys[j], p)) by {
            let in_front = exists|j: int|
                0 <= j < front.len() && key_probes(state, #[trigger] front[j], p);
            let in_keys = exists|j: int|
                0 <= j < keys.len() && key_probes(state, #[trigger] keys[j], p);
            assert(mid.bits[p] == (state.bits[p] || in_front));
            assert(key_probes(mid, keys.last(), p) == key_probes(state, keys.last(), p));
            if in_front {
                let j = choose|j: int|
                    0 <= j < front.len() && key_probes(state, #[trigger] front[j], p);
                assert(key_probes(state, keys[j], p));
            }
            if key_probes(state, keys.last(), p) {
                assert(key_probes(state, keys[keys.len() - 1], p));
            }
            if in_keys {
                let j = choose|j: int|
                    0 <= j < keys.len() && key_probes(state, #[trigger] keys[j], p);
                if j < front.len() {
                    assert(key_probes(state, front[j], p));
                }
            }
        }
    }
}

/// Bits are only ever raised: whatever is added to a filter, a bit that was
/// one is still one.
pub proof fn lemma_bits_stay_raised(state: FilterState, keys: Seq<Seq<char>>, p: int)
    requires
        0 <= p < state.bits.len(),
        state.bits[p],
    ensures
        state.with_keys(keys).bits[p],
{
    lemma_bits_after_additions(state, keys);
}

/// Additions keep a filter well formed.
pub proof fn lemma_additions_keep_well_formed(state: FilterState, keys: Seq<Seq<char>>)
    requires
        state.well_formed(),
    ensures
        state.with_keys(keys).well_formed(),
{
    lemma_bits_after_additions(state, keys);
}

/// No false negatives: a key that has been added might be contained, and
/// this stays so whatever keys are added after it.
pub proof fn lemma_no_false_negatives(state: FilterState, key: Seq<char>, later: Seq<Seq<char>>)
    requires
        state.well_formed(),
    ensures
        state.with_key(key).with_keys(later).might_contain(key),
{
    let added = state.with_key(key);
    let end = added.with_keys(later);
    let h1 = first_hash(key);
    let h2 = second_hash(key);
    lemma_bits_after_additions(added, later);
    assert forall|i: nat| i < end.hash_count implies end.bits[#[trigger] probe_position(
        h1,
        h2,
        i,
        end.bits.len(),
    ) as int] by {
        lemma_probe_position_in_range(h1, h2, i, state.bits.len());
        let p = probe_position(h1, h2, i, state.bits.len()) as int;
        assert(probed(h1, h2, state.hash_count, state.bits.len(), p));
        assert(added.bits[p]);
    }
}

/// Every key of a run of additions might be contained after the run.
pub proof fn lemma_added_keys_are_found(state: FilterState, keys: Seq<Seq<char>>, i: int)
    requires
        state.well_formed(),
        0 <= i < keys.len(),
    ensures
        state.with_keys(keys).might_contain(keys[i]),
{
    let end = state.with_keys(keys);
    let h1 = first_hash(keys[i]);
    let h2 = second_hash(keys[i]);
    lemma_bits_after_additions(state, keys);
    assert forall|j: nat| j < end.hash_count implies end.bits[#[trigger] probe_position(
        h1,
        h2,
        j,
        end.bits.len(),
    ) as int] by {
        lemma_probe_position_in_range(h1, h2, j, state.bits.len());
        let p = probe_position(h1, h2, j, state.bits.len()) as int;
        assert(probed(h1, h2, state.hash_count, state.bits.len(), p));
        assert(key_probes(state, keys[i], p));
    }
}

/// A negative answer is certain: a key that is not reported as possibly
/// contained is none of the keys that were added.
pub proof fn lemma_negative_is_definite(state: FilterState, keys: Seq<Seq<char>>, key: Seq<char>)
    requires
        state.well_formed(),
        !state.with_keys(keys).might_contain(key),
    ensures
        !keys.contains(key),
{
    if keys.contains(key) {
        let i = choose|i: int| 0 <= i < keys.len() && keys[i] == key;
        lemma_added_keys_are_found(state, keys, i);
    }
}

/// The positions on which the first `count` probes of `(h1, h2)` fall.
pub open spec fn probe_positions(h1: u64, h2: u64, count: nat, num_bits: nat) -> Set<int> {
    Set::new(|p: int| probed(h1, h2, count, num_bits, p))
}

/// `count` probes fall on at most `count` positions.
pub proof fn lemma_probe_positions_are_few(h1: u64, h2: u64, count: nat, num_bits: nat)
    ensures
        probe_positions(h1, h2, count, num_bits).finite(),
        probe_positions(h1, h2, count, num_bits).len() <= count,
    decreases count,
{
    if count == 0 {
        assert(probe_positions(h1, h2, 0, num_bits) =~= Set::<int>::empty());
    } else {
        let fewer = (count - 1) as nat;
        lemma_probe_positions_are_few(h1, h2, fewer, num_bits);
        assert forall|p: int|
            probed(h1, h2, count, num_bits, p) <==> probed(h1, h2, fewer, num_bits, p)
                || probe_position(h1, h2, fewer, num_bits) == p by {
            lemma_probed_step(h1, h2, fewer, num_bits, p);
        }
        assert(probe_positions(h1, h2, count, num_bits) =~= probe_positions(
            h1,
            h2,
            fewer,
            num_bits,
        ).insert(probe_position(h1, h2, fewer, num_bits) as int));
    }
}

/// The bits that are raised in `after` and were not raised in `before`.
pub open spec fn raised_between(before: FilterState, after: FilterState) -> Set<int> {
    Set::new(|p: int| 0 <= p < before.bits.len() && !before.bits[p] && after.bits[p])
}

/// Adding a key raises at most as many bits as the filter makes probes.
pub proof fn lemma_addition_raises_few_bits(state: FilterState, key: Seq<char>)
    ensures
        raised_between(state, state.with_key(key)).finite(),
        raised_between(state, state.with_key(key)).len() <= state.hash_count,
{
    let h1 = first_hash(key);
    let h2 = second_hash(key);
    let probes = probe_positions(h1, h2, state.hash_count, state.bits.len());
    lemma_probe_positions_are_few(h1, h2, state.hash_count, state.bits.len());
    assert(raised_between(state, state.with_key(key)).subset_of(probes));
    lemma_len_subset(raised_between(state, state.with_key(key)), probes);
}

/// The bits of `state` that are raised.
pub open spec fn raised_bits(state: FilterState) -> Set<int> {
    Set::new(|p: int| 0 <= p < state.bits.len() && state.bits[p])
}

/// The raised bits of a filter are finitely many, and no more than it has
/// bits.
pub proof fn lemma_raised_bits_are_finite(state: FilterState)
    ensures
        raised_bits(state).finite(),
        raised_bits(state).len() <= state.bits.len(),
{
    lemma_int_range(0, state.bits.len() as int);
    assert(raised_bits(state).subset_of(set_int_range(0, state.bits.len() as int)));
    lemma_len_subset(raised_bits(state), set_int_range(0, state.bits.len() as int));
}

/// A run of additions raises at most as many bits as it makes probes: each
/// added key accounts for `hash_count` bits at most. This bounds how full a
/// filter can be after a given number of additions.
pub proof fn lemma_additions_raise_few_bits(state: FilterState, keys: Seq<Seq<char>>)
    ensures
        raised_bits(state.with_keys(keys)).finite(),
        raised_bits(state.with_keys(keys)).len() <= raised_bits(state).len() + keys.len()
            * state.hash_count,
    decreases keys.len(),
{
    lemma_raised_bits_are_finite(state.with_keys(keys));
    if keys.len() > 0 {
        let front = keys.drop_last();
        let mid = state.with_keys(front);
        let end = state.with_keys(keys);
        let probes = probe_positions(
            first_hash(keys.last()),
            second_hash(keys.last()),
            mid.hash_count,
            mid.bits.len(),
        );
        lemma_additions_raise_few_bits(state, front);
        lemma_bits_after_additions(state, front);
        lemma_probe_positions_are_few(
            first_hash(keys.last()),
            second_hash(keys.last()),
            mid.hash_count,
            mid.bits.len(),
        );
        assert(raised_bits(end).subset_of(raised_bits(mid).union(probes)));
        lemma_len_union(raised_bits(mid), probes);
        lemma_len_subset(raised_bits(end), raised_bits(mid).union(probes));
        assert(keys.len() * state.hash_count == front.len() * state.hash_count
            + state.hash_count) by (nonlinear_arith)
            requires
                keys.len() == front.len() + 1,
        ;
    }
}

/// Idempotence: adding a key a second time changes nothing.
pub proof fn lemma_adding_twice_is_adding_once(state: FilterState, key: Seq<char>)
    ensures
        state.with_key(key).with_key(key) == state.with_key(key),
{
    assert(state.with_key(key).with_key(key).bits =~= state.with_key(key).bits);
}

/// Insertion-order independence: two runs of additions that add the same
/// keys, in whatever order and however often each, lead to the same bits, and
/// so to the same answer for every key.
pub proof fn lemma_order_of_additions_is_irrelevant(
    state: FilterState,
    first: Seq<Seq<char>>,
    second: Seq<Seq<char>>,
)
    requires
        first.to_set() == second.to_set(),
    ensures
        state.with_keys(first) == state.with_keys(second),
        forall|key: Seq<char>|
            state.with_keys(first).might_contain(key) == state.with_keys(second).might_contain(
                key,
            ),
{
    lemma_bits_after_additions(state, first);
    lemma_bits_after_additions(state, second);
    assert forall|p: int| 0 <= p < state.bits.len() implies state.with_keys(first).bits[p]
        == state.with_keys(second).bits[p] by {
        if exists|j: int| 0 <= j < first.len() && key_probes(state, #[trigger] first[j], p) {
            lemma_same_keys_same_probes(state, first, second, p);
        }
        if exists|j: int| 0 <= j < second.len() && key_probes(state, #[trigger] second[j], p) {
            lemma_same_keys_same_probes(state, second, first, p);
        }
    }
    assert(state.with_keys(first).bits =~= state.with_keys(second).bits);
}

proof fn lemma_same_keys_same_probes(
    state: FilterState,
    first: Seq<Seq<char>>,
    second: Seq<Seq<char>>,
    p: int,
)
    requires
        first.to_set() == second.to_set(),
        exists|j: int| 0 <= j < first.len() && key_probes(state, #[trigger] first[j], p),
    ensures
        exists|j: int| 0 <= j < second.len() && key_probes(state, #[trigger] second[j], p),
{
    let j = choose|j: int| 0 <= j < first.len() && key_probes(state, #[trigger] first[j], p);
    assert(first.contains(first[j]));
    assert(first.to_set().contains(first[j]));
    assert(second.to_set().contains(first[j]));
    assert(second.contains(first[j]));
    let k = choose|k: int| 0 <= k < second.len() && second[k] == first[j];
    assert(key_probes(state, second[k], p));
}

/// A filter of a single bit is saturated by its first addition: after it,
/// every key might be contained.
pub proof fn lemma_one_bit_filter_saturates(
    state: FilterState,
    added: Seq<char>,
    queried: Seq<char>,
)
    requires
        state.well_formed(),
        state.num_bits() == 1,
    ensures
        state.with_key(added).might_contain(queried),
{
    let after = state.with_key(added);
    lemma_probe_position_in_range(first_hash(added), second_hash(added), 0, 1);
    assert(probe_position(first_hash(added), second_hash(added), 0, 1) == 0);
    assert(probed(first_hash(added), second_hash(added), state.hash_count, 1, 0));
    assert(after.bits[0]);
    assert forall|i: nat| i < after.hash_count implies after.bits[#[trigger] probe_position(
        first_hash(queried),
        second_hash(queried),
        i,
        after.bits.len(),
    ) as int] by {
        lemma_probe_position_in_range(first_hash(queried), second_hash(queried), i, 1);
    }
}

} // verus!
