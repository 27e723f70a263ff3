//! The two base hashes from which a filter derives its probe positions.
//!
//! Both come from code that is not verified here: the standard library's
//! `DefaultHasher` and the `seahash` crate. What is assumed of them is that
//! each is a function of the key alone.

use std::collections::hash_map::DefaultHasher;
use std::hash::{Hash, Hasher};
use vstd::prelude::*;
use vstd::std_specs::hash::DefaultHasherAdditionalSpecFns;
use vstd::utf8::encode_utf8;

verus! {

/// The digest that `seahash::hash` computes for `bytes`.
pub uninterp spec fn seahash_of(bytes: Seq<u8>) -> u64;

/// `seahash::hash` hashes a buffer with a seed that the crate fixes, so its
/// result depends on the bytes of the buffer and on nothing else.
pub assume_specification[ seahash::hash ](buf: &[u8]) -> (digest: u64)
    ensures
        digest == seahash_of(buf@),
;

/// What the `Hash` impl of `str` writes to a hasher for `key`.
pub uninterp spec fn str_hash_writes(key: Seq<char>) -> Seq<Seq<u8>>;

/// Feeds `key` to `hasher` through `<str as Hash>::hash`. The data that
/// reach the hasher depend on the characters of `key` alone, and they come
/// after what the hasher has taken in before.
#[verifier::external_body]
fn feed_str(hasher: &mut DefaultHasher, key: &str)
    ensures
        final(hasher)@ == old(hasher)@ + str_hash_writes(key@),
{
    key.hash(hasher);
}

/// The first base hash of `key`: that of a fresh `DefaultHasher` to which
/// the key has been fed.
pub open spec fn first_hash(key: Seq<char>) -> u64 {
    DefaultHasher::spec_finish(str_hash_writes(key))
}

/// The second base hash of `key`: the SeaHash digest of its UTF-8 bytes.
pub open spec fn second_hash(key: Seq<char>) -> u64 {
    seahash_of(encode_utf8(key))
}

/// Computes both base hashes of `key`.
pub fn base_hashes(key: &str) -> (hashes: (u64, u64))
    ensures
        hashes.0 == first_hash(key@),
        hashes.1 == second_hash(key@),
{
    let mut hasher = DefaultHasher::new();
    feed_str(&mut hasher, key);
    assert(hasher@ =~= str_hash_writes(key@));
    let h1: u64 = hasher.finish();
    let h2: u64 = seahash::hash(key.as_bytes());
    (h1, h2)
}

} // verus!
