//! Formatting of what the crawler counts, and the interfaces through which
//! metric collectors hand their counters out.

use crate::error::SpiderError;
use crate::text::{decimal, digit_char, digit_text, digits};
use std::time::Duration;
use vstd::arithmetic::div_mod::{lemma_fundamental_div_mod, lemma_mod_bound};
use vstd::prelude::*;

verus! {

/// The bytes of a kibibyte.
pub const KB: usize = 1024;

/// The bytes of a mebibyte.
pub const MB: usize = 1_048_576;

/// The bytes of a gibibyte.
pub const GB: usize = 1_073_741_824;

/// `a / d`, rounded to the nearest whole number; a tie goes to the even one.
pub open spec fn round_half_even(a: nat, d: nat) -> nat
    recommends
        d > 0,
{
    let q = a / d;
    let r = a % d;
    if 2 * r > d || (2 * r == d && q % 2 == 1) {
        q + 1
    } else {
        q
    }
}

/// The distance between neighbouring numbers of 53 significant bits around
/// `n`, for `n` below 2^64: one below 2^53, and twice as much with each bit
/// that `n` has more.
pub open spec fn spacing(n: nat) -> nat {
    if n < 0x20_0000_0000_0000 {
        1
    } else if n < 0x40_0000_0000_0000 {
        2
    } else if n < 0x80_0000_0000_0000 {
        4
    } else if n < 0x100_0000_0000_0000 {
        8
    } else if n < 0x200_0000_0000_0000 {
        16
    } else if n < 0x400_0000_0000_0000 {
        32
    } else if n < 0x800_0000_0000_0000 {
        64
    } else if n < 0x1000_0000_0000_0000 {
        128
    } else if n < 0x2000_0000_0000_0000 {
        256
    } else if n < 0x4000_0000_0000_0000 {
        512
    } else if n < 0x8000_0000_0000_0000 {
        1024
    } else {
        2048
    }
}

/// `n` as a number of 53 significant bits: the nearest one, a tie going to
/// the one whose last bit is zero. Sizes are reported with this precision.
pub open spec fn to_53_bits(n: nat) -> nat {
    round_half_even(n, spacing(n)) * spacing(n)
}

/// The hundredths in `n / unit`, with `n` taken to 53 bits and the quotient
/// rounded to the nearest hundredth; a tie goes to the even number of
/// hundredths.
pub open spec fn hundredths(n: nat, unit: nat) -> nat {
    round_half_even(to_53_bits(n) * 100, unit)
}

/// `h` hundredths written with a point and two decimals.
pub open spec fn two_decimals(h: nat) -> Seq<char> {
    digits(h / 100, 10) + "."@ + seq![digit_char(h % 100 / 10), digit_char(h % 10)]
}

/// A size in bytes as text: in gibibytes, mebibytes or kibibytes with two
/// decimals, in the largest of these units that the size reaches, and in
/// whole bytes below one kibibyte.
pub open spec fn bytes_text(bytes: nat) -> Seq<char> {
    if bytes >= GB {
        two_decimals(hundredths(bytes, GB as nat)) + " GB"@
    } else if bytes >= MB {
        two_decimals(hundredths(bytes, MB as nat)) + " MB"@
    } else if bytes >= KB {
        two_decimals(hundredths(bytes, KB as nat)) + " KB"@
    } else {
        digits(bytes, 10) + " B"@
    }
}

/// Divides `a` by `d` and rounds to the nearest whole number, a tie going to
/// the even one.
pub fn divide_half_even(a: u128, d: u128) -> (rounded: u128)
    requires
        d > 0,
        a < u128::MAX,
    ensures
        rounded == round_half_even(a as nat, d as nat),
        rounded * d <= a + d,
{
    let q: u128 = a / d;
    let r: u128 = a % d;
    proof {
        // a == d * q + r with 0 <= r < d, so q <= a and (q + 1) * d <= a + d.
        lemma_fundamental_div_mod(a as int, d as int);
        lemma_mod_bound(a as int, d as int);
        assert(q <= a) by (nonlinear_arith)
            requires
                a == d * q + r,
                d >= 1,
                r >= 0,
                q >= 0,
        ;
        assert((q + 1) * d == d * q + d) by (nonlinear_arith);
    }
    if r > d - r || (r == d - r && q % 2 == 1) {
        q + 1
    } else {
        q
    }
}

/// The spacing of numbers of 53 significant bits around `n`.
fn spacing_of(n: u64) -> (s: u64)
    ensures
        s == spacing(n as nat),
        1 <= s <= 2048,
{
    if n < 0x20_0000_0000_0000 {
        1
    } else if n < 0x40_0000_0000_0000 {
        2
    } else if n < 0x80_0000_0000_0000 {
        4
    } else if n < 0x100_0000_0000_0000 {
        8
    } else if n < 0x200_0000_0000_0000 {
        16
    } else if n < 0x400_0000_0000_0000 {
        32
    } else if n < 0x800_0000_0000_0000 {
        64
    } else if n < 0x1000_0000_0000_0000 {
        128
    } else if n < 0x2000_0000_0000_0000 {
        256
    } else if n < 0x4000_0000_0000_0000 {
        512
    } else if n < 0x8000_0000_0000_0000 {
        1024
    } else {
        2048
    }
}

/// Writes `bytes / unit` with two decimals.
fn scaled(bytes: u64, unit: u64) -> (text: String)
    requires
        unit >= 1024,
    ensures
        text@ == two_decimals(hundredths(bytes as nat, unit as nat)),
{
    let s: u64 = spacing_of(bytes);
    let steps: u128 = divide_half_even(bytes as u128, s as u128);
    // steps * s <= bytes + s, which is far below 2^66.
    let precise: u128 = steps * (s as u128);
    let h: u128 = divide_half_even(precise * 100, unit as u128);
    proof {
        // h * 1024 <= h * unit <= precise * 100 + unit, so h / 100 fits 64 bits.
        assert(h * 1024 <= h * unit) by (nonlinear_arith)
            requires
                unit >= 1024,
                h >= 0,
        ;
    }
    let whole: u64 = (h / 100) as u64;
    let mut text = decimal(whole);
    text.append(".");
    text.append(digit_text((h % 100 / 10) as u64));
    text.append(digit_text((h % 10) as u64));
    proof {
        assert(text@ =~= two_decimals(h as nat));
    }
    text
}

/// Formats sizes in bytes.
pub trait ByteFormatter {
    /// The size `bytes` as text.
    fn formatted_bytes(&self, bytes: usize) -> String;
}

/// Formats sizes in binary units with two decimals.
pub struct DefaultByteFormatter;

impl ByteFormatter for DefaultByteFormatter {
    fn formatted_bytes(&self, bytes: usize) -> (text: String)
        ensures
            text@ == bytes_text(bytes as nat),
    {
        if bytes >= GB {
            let mut text = scaled(bytes as u64, GB as u64);
            text.append(" GB");
            text
        } else if bytes >= MB {
            let mut text = scaled(bytes as u64, MB as u64);
            text.append(" MB");
            text
        } else if bytes >= KB {
            let mut text = scaled(bytes as u64, KB as u64);
            text.append(" KB");
            text
        } else {
            let mut text = decimal(bytes as u64);
            text.append(" B");
            text
        }
    }
}

/// Formats durations.
pub trait DurationFormatter {
    /// The duration as text.
    fn formatted_duration(&self, duration: Duration) -> String;

    /// The time that a request took as text, where one was measured.
    fn formatted_request_time(&self, duration: Option<Duration>) -> String;
}

/// A collector that can freeze its counters into a snapshot.
pub trait SnapshotProvider {
    type Snapshot: Clone;

    /// The counters as they are now.
    fn create_snapshot(&self) -> Self::Snapshot;
}

/// Metrics that can be written out in several formats.
pub trait MetricsExporter<T> {
    /// The metrics as compact JSON.
    fn to_json_string(&self) -> Result<String, SpiderError>;

    /// The metrics as indented JSON.
    fn to_json_string_pretty(&self) -> Result<String, SpiderError>;

    /// The metrics as a Markdown table.
    fn to_markdown_string(&self) -> String;

    /// The metrics as plain text for a terminal.
    fn to_display_string(&self) -> String;
}

} // verus!
