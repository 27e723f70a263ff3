//! The selectors that are worth compiling before a crawl starts.

use vstd::prelude::*;

verus! {

/// The selectors that pages are searched with most often.
pub open spec fn common_selectors_of() -> Seq<Seq<char>> {
    seq![
        "a[href]"@,
        "link[href]"@,
        "script[src]"@,
        "img[src]"@,
        "audio[src]"@,
        "video[src]"@,
        "source[src]"@,
        "form[action]"@,
        "iframe[src]"@,
        "frame[src]"@,
        "embed[src]"@,
        "object[data]"@,
    ]
}

/// The selectors with which a cache of compiled selectors is warmed up.
pub fn common_selectors() -> (selectors: Vec<&'static str>)
    ensures
        selectors@.map_values(|s: &'static str| s@) == common_selectors_of(),
{
    let selectors = vec![
        "a[href]",
        "link[href]",
        "script[src]",
        "img[src]",
        "audio[src]",
        "video[src]",
        "source[src]",
        "form[action]",
        "iframe[src]",
        "frame[src]",
        "embed[src]",
        "object[data]",
    ];
    assert(selectors@.map_values(|s: &'static str| s@) =~= common_selectors_of());
    selectors
}

} // verus!
