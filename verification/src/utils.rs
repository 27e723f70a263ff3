//! Helpers that several components of the crawler share.

use crate::text::{decimal, digits};
use vstd::prelude::*;

verus! {

/// The origin `scheme://host:port`, with an empty host where there is none
/// and the port zero where none is known.
pub open spec fn origin_of(scheme: Seq<char>, host: Option<Seq<char>>, port: Option<u16>) -> Seq<
    char,
> {
    scheme + "://"@ + match host {
        Some(h) => h,
        None => Seq::empty(),
    } + ":"@ + digits(
        match port {
            Some(p) => p as nat,
            None => 0,
        },
        10,
    )
}

/// Writes the origin of a URL from its scheme, its host and its port (the
/// explicit port, or the default port of the scheme).
pub fn normalize_origin(scheme: &str, host: Option<&str>, port: Option<u16>) -> (origin: String)
    ensures
        origin@ == origin_of(
            scheme@,
            match host {
                Some(h) => Some(h@),
                None => None,
            },
            port,
        ),
{
    let mut origin = String::from_str(scheme);
    origin.append("://");
    match host {
        Some(h) => {
            origin.append(h);
        },
        None => {
            assert(origin@ + Seq::<char>::empty() =~= origin@);
        },
    }
    origin.append(":");
    let number: u64 = match port {
        Some(p) => p as u64,
        None => 0,
    };
    origin.append(decimal(number).as_str());
    origin
}

} // verus!
