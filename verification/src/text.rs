//! Numbers written out as text.

use vstd::prelude::*;

verus! {

/// The character that stands for the digit `d` in bases up to sixteen; the
/// digits past nine are the small letters `a` to `f`.
pub open spec fn digit_char(d: nat) -> char {
    if d == 0 {
        '0'
    } else if d == 1 {
        '1'
    } else if d == 2 {
        '2'
    } else if d == 3 {
        '3'
    } else if d == 4 {
        '4'
    } else if d == 5 {
        '5'
    } else if d == 6 {
        '6'
    } else if d == 7 {
        '7'
    } else if d == 8 {
        '8'
    } else if d == 9 {
        '9'
    } else if d == 10 {
        'a'
    } else if d == 11 {
        'b'
    } else if d == 12 {
        'c'
    } else if d == 13 {
        'd'
    } else if d == 14 {
        'e'
    } else {
        'f'
    }
}

/// The digits of `n` in base `base`, most significant first and without
/// leading zeros; zero is the single digit `0`.
pub open spec fn digits(n: nat, base: nat) -> Seq<char>
    recommends
        2 <= base <= 16,
    decreases n,
    via digits_terminate
{
    if n < base || base < 2 {
        seq![digit_char(n)]
    } else {
        digits(n / base, base).push(digit_char(n % base))
    }
}

#[via_fn]
proof fn digits_terminate(n: nat, base: nat) {
    if n >= base && base >= 2 {
        assert(n / base < n) by (nonlinear_arith)
            requires
                n >= base,
                base >= 2,
        ;
    }
}

/// The one-character text of the digit `d`.
pub(crate) fn digit_text(d: u64) -> (text: &'static str)
    requires
        d < 16,
    ensures
        text@ == seq![digit_char(d as nat)],
{
    proof {
        reveal_strlit("0");
        reveal_strlit("1");
        reveal_strlit("2");
        reveal_strlit("3");
        reveal_strlit("4");
        reveal_strlit("5");
        reveal_strlit("6");
        reveal_strlit("7");
        reveal_strlit("8");
        reveal_strlit("9");
        reveal_strlit("a");
        reveal_strlit("b");
        reveal_strlit("c");
        reveal_strlit("d");
        reveal_strlit("e");
        reveal_strlit("f");
    }
    let text = if d == 0 {
        "0"
    } else if d == 1 {
        "1"
    } else if d == 2 {
        "2"
    } else if d == 3 {
        "3"
    } else if d == 4 {
        "4"
    } else if d == 5 {
        "5"
    } else if d == 6 {
        "6"
    } else if d == 7 {
        "7"
    } else if d == 8 {
        "8"
    } else if d == 9 {
        "9"
    } else if d == 10 {
        "a"
    } else if d == 11 {
        "b"
    } else if d == 12 {
        "c"
    } else if d == 13 {
        "d"
    } else if d == 14 {
        "e"
    } else {
        "f"
    };
    assert(text@ =~= seq![digit_char(d as nat)]);
    text
}

/// `n` written in base `base`.
fn in_base(n: u64, base: u64) -> (text: String)
    requires
        2 <= base <= 16,
    ensures
        text@ == digits(n as nat, base as nat),
{
    // The digits from the least significant one up.
    let mut low_first: Vec<u64> = Vec::new();
    let mut rest: u64 = n;
    while rest >= base
        invariant
            2 <= base <= 16,
            forall|i: int| 0 <= i < low_first.len() ==> low_first[i] < base,
            digits(n as nat, base as nat) == digits(rest as nat, base as nat) + Seq::new(
                low_first.len() as nat,
                |i: int| digit_char(low_first[low_first.len() - 1 - i] as nat),
            ),
        decreases rest,
    {
        let ghost before = low_first@;
        let ghost rest_before = rest;
        low_first.push(rest % base);
        rest = rest / base;
        proof {
            let tail_before = Seq::new(
                before.len() as nat,
                |i: int| digit_char(before[before.len() - 1 - i] as nat),
            );
            let tail = Seq::new(
                low_first.len() as nat,
                |i: int| digit_char(low_first[low_first.len() - 1 - i] as nat),
            );
            assert(tail =~= seq![digit_char((rest_before % base) as nat)] + tail_before);
            assert(digits(rest_before as nat, base as nat) == digits(rest as nat, base as nat).push(
                digit_char((rest_before % base) as nat),
            ));
            assert(digits(rest as nat, base as nat) + tail =~= digits(
                rest_before as nat,
                base as nat,
            ) + tail_before);
        }
    }
    let mut text = String::from_str(digit_text(rest));
    let ghost tail = Seq::new(
        low_first.len() as nat,
        |i: int| digit_char(low_first[low_first.len() - 1 - i] as nat),
    );
    let mut left: usize = low_first.len();
    while left > 0
        invariant
            left <= low_first.len(),
            forall|i: int| 0 <= i < low_first.len() ==> low_first[i] < 16,
            tail == Seq::new(
                low_first.len() as nat,
                |i: int| digit_char(low_first[low_first.len() - 1 - i] as nat),
            ),
            text@ == digits(rest as nat, base as nat) + tail.subrange(
                0,
                low_first.len() - left,
            ),
        decreases left,
    {
        left = left - 1;
        let ghost shown = text@;
        text.append(digit_text(low_first[left]));
        proof {
            let done = low_first.len() - left;
            assert(tail.subrange(0, done as int) =~= tail.subrange(0, done - 1).push(
                tail[done - 1],
            ));
            assert(text@ =~= digits(rest as nat, base as nat) + tail.subrange(0, done as int));
        }
    }
    assert(tail.subrange(0, low_first.len() as int) =~= tail);
    text
}

/// `n` in decimal.
pub fn decimal(n: u64) -> (text: String)
    ensures
        text@ == digits(n as nat, 10),
{
    in_base(n, 10)
}

/// `n` in hexadecimal, with small letters and without a prefix.
pub fn lower_hex(n: u64) -> (text: String)
    ensures
        text@ == digits(n as nat, 16),
{
    in_base(n, 16)
}

} // verus!
