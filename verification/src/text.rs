//! Decimal and octal rendering of integers, over characters and over bytes.
//!
//! Error messages and status strings carry numbers; these helpers produce
//! them with exact contracts instead of the opaque `format!` machinery.

use vstd::prelude::*;

verus! {

/// The decimal digit `d` as a character.
pub open spec fn spec_digit_char(d: nat) -> char
    recommends
        d < 10,
{
    if d == 0 {
        '0'
    } else if d == 1 {
        '1'
    } else if d == 2 {
        '2'
    } else if d == 3 {
        '3'
    } else if d == 4 {
        '4'
    } else if d == 5 {
        '5'
    } else if d == 6 {
        '6'
    } else if d == 7 {
        '7'
    } else if d == 8 {
        '8'
    } else {
        '9'
    }
}

/// The decimal representation of `n`, most significant digit first,
/// with no leading zeros (a single `'0'` for zero).
pub open spec fn spec_dec_chars(n: nat) -> Seq<char>
    decreases n,
{
    if n < 10 {
        seq![spec_digit_char(n)]
    } else {
        spec_dec_chars(n / 10) + seq![spec_digit_char(n % 10)]
    }
}

/// The decimal representation of `n` as ASCII bytes.
pub open spec fn spec_dec_bytes(n: nat) -> Seq<u8>
    decreases n,
{
    if n < 10 {
        seq![(n + 48) as u8]
    } else {
        spec_dec_bytes(n / 10) + seq![(n % 10 + 48) as u8]
    }
}

/// The octal representation of `n`, most significant digit first.
pub open spec fn spec_oct_chars(n: nat) -> Seq<char>
    decreases n,
{
    if n < 8 {
        seq![spec_digit_char(n)]
    } else {
        spec_oct_chars(n / 8) + seq![spec_digit_char(n % 8)]
    }
}

/// A single decimal digit as a string slice.
fn digit_str(d: u64) -> (r: &'static str)
    requires
        d < 10,
    ensures
        r@ == seq![spec_digit_char(d as nat)],
{
    proof {
        reveal_strlit("0");
        reveal_strlit("1");
        reveal_strlit("2");
        reveal_strlit("3");
        reveal_strlit("4");
        reveal_strlit("5");
        reveal_strlit("6");
        reveal_strlit("7");
        reveal_strlit("8");
        reveal_strlit("9");
    }
    let r = if d == 0 {
        "0"
    } else if d == 1 {
        "1"
    } else if d == 2 {
        "2"
    } else if d == 3 {
        "3"
    } else if d == 4 {
        "4"
    } else if d == 5 {
        "5"
    } else if d == 6 {
        "6"
    } else if d == 7 {
        "7"
    } else if d == 8 {
        "8"
    } else {
        "9"
    };
    proof {
        assert(r@ =~= seq![spec_digit_char(d as nat)]);
    }
    r
}

/// Renders `n` in decimal.
pub fn u64_to_dec_string(n: u64) -> (r: String)
    ensures
        r@ == spec_dec_chars(n as nat),
    decreases n,
{
    if n < 10 {
        String::from_str(digit_str(n))
    } else {
        let mut s = u64_to_dec_string(n / 10);
        s.append(digit_str(n % 10));
        s
    }
}

/// Renders `n` in decimal as ASCII bytes.
pub fn u64_to_dec_bytes(n: u64) -> (r: Vec<u8>)
    ensures
        r@ == spec_dec_bytes(n as nat),
    decreases n,
{
    if n < 10 {
        let mut v: Vec<u8> = Vec::new();
        v.push(n as u8 + 48);
        proof {
            assert(v@ =~= spec_dec_bytes(n as nat));
        }
        v
    } else {
        let mut v = u64_to_dec_bytes(n / 10);
        v.push((n % 10) as u8 + 48);
        proof {
            assert(v@ =~= spec_dec_bytes(n as nat));
        }
        v
    }
}

/// Renders `n` in octal.
pub fn u64_to_oct_string(n: u64) -> (r: String)
    ensures
        r@ == spec_oct_chars(n as nat),
    decreases n,
{
    if n < 8 {
        String::from_str(digit_str(n))
    } else {
        let mut s = u64_to_oct_string(n / 8);
        s.append(digit_str(n % 8));
        s
    }
}

} // verus!
