//! Text of register values, as diagnostics print them.

use vstd::prelude::*;

verus! {

/// Relies on `String::push_str`: `t` is appended to the end of `s`.
#[verifier::external_body]
pub(crate) fn push_str(s: &mut String, t: &str)
    ensures
        final(s)@ == old(s)@ + t@,
{
    s.push_str(t)
}

/// The lower-case hexadecimal digit for `d`, which is below 16.
pub open spec fn hex_digit_str(d: u32) -> &'static str {
    match d {
        0 => "0",
        1 => "1",
        2 => "2",
        3 => "3",
        4 => "4",
        5 => "5",
        6 => "6",
        7 => "7",
        8 => "8",
        9 => "9",
        10 => "a",
        11 => "b",
        12 => "c",
        13 => "d",
        14 => "e",
        _ => "f",
    }
}

/// `v` in lower-case hexadecimal, without leading zeros.
pub open spec fn hex_text(v: u32) -> Seq<char>
    decreases v,
{
    if v < 16 {
        hex_digit_str(v)@
    } else {
        hex_text(v / 16) + hex_digit_str(v % 16)@
    }
}

/// The last `n` digits of `v` in lower-case hexadecimal, with leading zeros.
pub open spec fn hex_fixed(v: u32, n: nat) -> Seq<char>
    decreases n,
{
    if n == 0 {
        Seq::empty()
    } else {
        hex_fixed(v / 16, (n - 1) as nat) + hex_digit_str(v % 16)@
    }
}

/// A bit as the digit 1 or 0.
pub open spec fn bit_text(b: bool) -> Seq<char> {
    if b {
        "1"@
    } else {
        "0"@
    }
}

fn hex_digit(d: u32) -> (r: &'static str)
    requires
        d < 16,
    ensures
        r == hex_digit_str(d),
{
    match d {
        0 => "0",
        1 => "1",
        2 => "2",
        3 => "3",
        4 => "4",
        5 => "5",
        6 => "6",
        7 => "7",
        8 => "8",
        9 => "9",
        10 => "a",
        11 => "b",
        12 => "c",
        13 => "d",
        14 => "e",
        _ => "f",
    }
}

/// Appends `v` in lower-case hexadecimal, without leading zeros.
pub(crate) fn push_hex(s: &mut String, v: u32)
    ensures
        final(s)@ == old(s)@ + hex_text(v),
    decreases v,
{
    let ghost s0 = s@;
    if v >= 16 {
        push_hex(s, v / 16);
    }
    push_str(s, hex_digit(v % 16));
    assert(s@ =~= s0 + hex_text(v));
}

/// Appends the last `n` digits of `v` in lower-case hexadecimal, with leading
/// zeros.
pub(crate) fn push_hex_fixed(s: &mut String, v: u32, n: u32)
    ensures
        final(s)@ == old(s)@ + hex_fixed(v, n as nat),
    decreases n,
{
    let ghost s0 = s@;
    if n > 0 {
        push_hex_fixed(s, v / 16, n - 1);
        push_str(s, hex_digit(v % 16));
    }
    assert(s@ =~= s0 + hex_fixed(v, n as nat));
}

/// Appends a bit as the digit 1 or 0.
pub(crate) fn push_bit(s: &mut String, b: bool)
    ensures
        final(s)@ == old(s)@ + bit_text(b),
{
    if b {
        push_str(s, "1");
    } else {
        push_str(s, "0");
    }
}

} // verus!
