//! Verified text rendering: decimal numbers, the `MM:SS` countdown and the
//! stats bar line.

use vstd::prelude::*;

verus! {

/// The character for a single decimal digit.
pub open spec fn spec_digit(d: nat) -> char {
    if d == 0 {
        '0'
    } else if d == 1 {
        '1'
    } else if d == 2 {
        '2'
    } else if d == 3 {
        '3'
    } else if d == 4 {
        '4'
    } else if d == 5 {
        '5'
    } else if d == 6 {
        '6'
    } else if d == 7 {
        '7'
    } else if d == 8 {
        '8'
    } else {
        '9'
    }
}

/// The decimal digits of `n`, most significant first, with no leading
/// zeros (a single `'0'` for zero).
pub open spec fn spec_decimal(n: nat) -> Seq<char>
    decreases n,
{
    if n < 10 {
        seq![spec_digit(n)]
    } else {
        spec_decimal(n / 10).push(spec_digit(n % 10))
    }
}

/// `s` left-padded with `'0'` to at least two characters.
pub open spec fn spec_pad2(s: Seq<char>) -> Seq<char> {
    if s.len() < 2 {
        seq!['0'] + s
    } else {
        s
    }
}

/// `total` seconds as zero-padded minutes and seconds, `MM:SS`.
pub open spec fn spec_mmss(total: nat) -> Seq<char> {
    spec_pad2(spec_decimal(total / 60)) + seq![':'] + spec_pad2(spec_decimal(total % 60))
}

/// A single decimal digit as a string slice.
fn digit_str(d: u64) -> (r: &'static str)
    requires
        d < 10,
    ensures
        r@ =~= seq![spec_digit(d as nat)],
{
    proof {
        reveal_strlit("0");
        reveal_strlit("1");
        reveal_strlit("2");
        reveal_strlit("3");
        reveal_strlit("4");
        reveal_strlit("5");
        reveal_strlit("6");
        reveal_strlit("7");
        reveal_strlit("8");
        reveal_strlit("9");
    }
    match d {
        0 => "0",
        1 => "1",
        2 => "2",
        3 => "3",
        4 => "4",
        5 => "5",
        6 => "6",
        7 => "7",
        8 => "8",
        _ => "9",
    }
}

/// `n` in decimal, most significant digit first, no leading zeros.
pub fn decimal_string(n: u64) -> (r: String)
    ensures
        r@ == spec_decimal(n as nat),
    decreases n,
{
    if n < 10 {
        String::from_str(digit_str(n))
    } else {
        let mut s = decimal_string(n / 10);
        s.append(digit_str(n % 10));
        proof {
            assert(s@ =~= spec_decimal((n / 10) as nat).push(spec_digit((n % 10) as nat)));
        }
        s
    }
}

/// Appends `s` to `out`, left-padded with `'0'` to at least two
/// characters.
fn append_pad2(out: &mut String, s: &str)
    ensures
        final(out)@ == old(out)@ + spec_pad2(s@),
{
    proof {
        reveal_strlit("0");
    }
    if s.unicode_len() < 2 {
        out.append("0");
    }
    out.append(s);
    proof {
        assert(s@.len() < 2 ==> final(out)@ =~= old(out)@ + spec_pad2(s@));
    }
}

/// `total` seconds rendered as the countdown text `MM:SS`: zero-padded
/// minutes, a colon, zero-padded seconds.
pub fn format_mmss(total: u64) -> (r: String)
    ensures
        r@ == spec_mmss(total as nat),
{
    proof {
        reveal_strlit(":");
    }
    let mut out = String::new();
    let minutes = decimal_string(total / 60);
    append_pad2(&mut out, minutes.as_str());
    out.append(":");
    let seconds = decimal_string(total % 60);
    append_pad2(&mut out, seconds.as_str());
    proof {
        assert(out@ =~= spec_mmss(total as nat));
    }
    out
}

} // verus!
