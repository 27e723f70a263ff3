//! What a request computes from plain values: its fingerprint, the count of
//! its retries, and the errors of a header that cannot be set.
//!
//! A fingerprint is taken of the URL of a request, of its method and of its
//! body. The three are hashed, one after the other, with XXH64 under the
//! seed zero, and the digest is written in hexadecimal. Two requests with the
//! same fingerprint are taken to be the same request.

use crate::error::SpiderError;
use crate::text::{digits, lower_hex};
use vstd::prelude::*;
use vstd::utf8::encode_utf8;

verus! {

/// The XXH64 digest of `data` under `seed`.
pub uninterp spec fn xxh64_of(seed: u64, data: Seq<u8>) -> u64;

/// `XxHash64::oneshot` hashes a whole buffer at once; its result depends on
/// the seed and on the bytes of the buffer, and on nothing else.
pub assume_specification[ twox_hash::XxHash64::oneshot ](seed: u64, data: &[u8]) -> (digest: u64)
    ensures
        digest == xxh64_of(seed, data@),
;

/// The text of a form as it enters a fingerprint: each name followed at once
/// by its value, field after field in the order given.
pub open spec fn form_text_of(fields: Seq<(Seq<char>, Seq<char>)>) -> Seq<char>
    decreases fields.len(),
{
    if fields.len() == 0 {
        Seq::empty()
    } else {
        form_text_of(fields.drop_last()) + fields.last().0 + fields.last().1
    }
}

/// The names and values of `fields` as sequences of characters.
pub open spec fn field_views(fields: Seq<(String, String)>) -> Seq<(Seq<char>, Seq<char>)> {
    fields.map_values(|f: (String, String)| (f.0@, f.1@))
}

/// Joins the names and values of a form into the text that its fingerprint
/// is taken of.
pub fn form_text(fields: &Vec<(String, String)>) -> (text: String)
    ensures
        text@ == form_text_of(field_views(fields@)),
{
    let mut text = String::new();
    let mut i: usize = 0;
    assert(field_views(fields@).subrange(0, 0) =~= Seq::empty());
    while i < fields.len()
        invariant
            i <= fields.len(),
            text@ == form_text_of(field_views(fields@).subrange(0, i as int)),
        decreases fields.len() - i,
    {
        text.append(fields[i].0.as_str());
        text.append(fields[i].1.as_str());
        proof {
            let all = field_views(fields@);
            assert(all.subrange(0, i + 1).drop_last() =~= all.subrange(0, i as int));
            assert(all.subrange(0, i + 1).last() == (fields@[i as int].0@, fields@[i as int].1@));
        }
        i = i + 1;
    }
    assert(field_views(fields@).subrange(0, fields.len() as int) =~= field_views(fields@));
    text
}

/// The bytes that the fingerprint of a request is taken of: the URL, then
/// the method, then the body where there is one.
pub open spec fn fingerprint_input(
    url: Seq<char>,
    method: Seq<char>,
    body: Option<Seq<u8>>,
) -> Seq<u8> {
    encode_utf8(url) + encode_utf8(method) + match body {
        Some(bytes) => bytes,
        None => Seq::empty(),
    }
}

/// The fingerprint of a request with the given URL, method and body.
pub open spec fn fingerprint_of(url: Seq<char>, method: Seq<char>, body: Option<Seq<u8>>) -> Seq<
    char,
> {
    digits(xxh64_of(0, fingerprint_input(url, method, body)) as nat, 16)
}

/// Computes the fingerprint of a request from its URL, its method and the
/// bytes of its body.
pub fn fingerprint(url: &str, method: &str, body: Option<&[u8]>) -> (hex: String)
    ensures
        hex@ == fingerprint_of(
            url@,
            method@,
            match body {
                Some(bytes) => Some(bytes@),
                None => None,
            },
        ),
{
    let mut input: Vec<u8> = Vec::new();
    input.extend_from_slice(url.as_bytes());
    input.extend_from_slice(method.as_bytes());
    match body {
        Some(bytes) => {
            input.extend_from_slice(bytes);
            assert(input@ =~= encode_utf8(url@) + encode_utf8(method@) + bytes@);
        },
        None => {
            assert(input@ =~= encode_utf8(url@) + encode_utf8(method@) + Seq::<u8>::empty());
        },
    }
    lower_hex(twox_hash::XxHash64::oneshot(0, input.as_slice()))
}

/// The key under which a request keeps the count of its retries.
pub const RETRY_ATTEMPTS_KEY: &'static str = "retry_attempts";

/// The count of retries that a request has recorded: the number found under
/// `RETRY_ATTEMPTS_KEY`, cut to 32 bits, and zero where none is found.
pub fn get_retry_attempts(recorded: Option<u64>) -> (attempts: u32)
    ensures
        attempts == match recorded {
            Some(n) => n % 0x1_0000_0000,
            None => 0,
        },
{
    match recorded {
        Some(n) => {
            assert(n as u32 == n % 0x1_0000_0000) by (bit_vector);
            #[verifier::truncate]
            (n as u32)
        },
        None => 0,
    }
}

/// The count to record when a request is retried once more.
pub fn increment_retry_attempts(current: u32) -> (next: u32)
    requires
        current < u32::MAX,
    ensures
        next == current + 1,
{
    current + 1
}

/// The error for a header whose name `name` was refused for `reason`.
pub fn invalid_header_name(name: &str, reason: &str) -> (e: SpiderError)
    ensures
        e matches SpiderError::HeaderValueError(m) && m@ == "Invalid header name '"@ + name@
            + "': "@ + reason@,
{
    let mut message = String::from_str("Invalid header name '");
    message.append(name);
    message.append("': ");
    message.append(reason);
    SpiderError::HeaderValueError(message)
}

/// The error for a header whose value `value` was refused for `reason`.
pub fn invalid_header_value(value: &str, reason: &str) -> (e: SpiderError)
    ensures
        e matches SpiderError::HeaderValueError(m) && m@ == "Invalid header value '"@ + value@
            + "': "@ + reason@,
{
    let mut message = String::from_str("Invalid header value '");
    message.append(value);
    message.append("': ");
    message.append(reason);
    SpiderError::HeaderValueError(message)
}

} // verus!
