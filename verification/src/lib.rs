//! Utilities shared by the components of a web crawler.
//!
//! The centre of the crate is [`bloom_filter::BloomFilter`], a fixed-capacity
//! probabilistic set of string keys that a crawl frontier consults before it
//! asks the exact store of visited URLs. It is built from three parts:
//!
//! - [`bit_storage`] packs the bits of a filter into 64-bit words;
//! - [`hashing`] computes the two base hashes of a key;
//! - [`filter_state`] says where the probes of a key fall and what adding a
//!   key does, and proves what callers rely on: no false negatives,
//!   idempotence and independence of the order of additions.
//!
//! Around it stand the error types of the crawler ([`error`]), the rules by
//! which links are classified ([`response`]), the fingerprint of a request
//! ([`request`]), the formatting of sizes ([`metrics`]) and of numbers
//! ([`text`]), and a few helpers ([`utils`], [`selector_cache`]).

pub mod bit_storage;
pub mod bloom_filter;
pub mod error;
pub mod filter_state;
pub mod hashing;
pub mod metrics;
pub mod request;
pub mod response;
pub mod selector_cache;
pub mod text;
pub mod utils;
