//! Decimal rendering of integers as character sequences, used for building
//! destination file names (zero-padded months, collision indices, timestamps).
use vstd::prelude::*;

use crate::text::chars_to_string;

verus! {

/// The ASCII digit character for a value below ten.
pub open spec fn dec_digit(n: int) -> char
    recommends
        0 <= n < 10,
{
    ((n + 48) as u8) as char
}

/// Decimal digits of a natural number, most significant first.
pub open spec fn dec_str(n: nat) -> Seq<char>
    decreases n,
{
    if n < 10 {
        seq![dec_digit(n as int)]
    } else {
        dec_str(n / 10).push(dec_digit((n % 10) as int))
    }
}

/// A run of `k` zero characters.
pub open spec fn zero_chars(k: nat) -> Seq<char> {
    Seq::new(k, |i: int| '0')
}

/// Decimal digits, padded on the left with zeros to at least `width` characters.
pub open spec fn dec_str_pad(n: nat, width: nat) -> Seq<char> {
    if dec_str(n).len() >= width {
        dec_str(n)
    } else {
        zero_chars((width - dec_str(n).len()) as nat) + dec_str(n)
    }
}

/// Decimal rendering of a signed value: a minus sign before the magnitude.
pub open spec fn dec_str_signed(n: int) -> Seq<char> {
    if n >= 0 {
        dec_str(n as nat)
    } else {
        seq!['-'] + dec_str((-n) as nat)
    }
}

/// Digits of `n`, most significant first.
pub fn u64_digits(n: u64) -> (v: Vec<char>)
    ensures
        v@ == dec_str(n as nat),
    decreases n,
{
    if n < 10 {
        let c: char = ((n as u8) + 48) as char;
        let mut v: Vec<char> = Vec::new();
        v.push(c);
        assert(v@ =~= dec_str(n as nat));
        v
    } else {
        let mut v = u64_digits(n / 10);
        let c: char = (((n % 10) as u8) + 48) as char;
        v.push(c);
        assert(v@ =~= dec_str(n as nat));
        v
    }
}

/// The decimal rendering of a value as a string.
pub fn u64_to_string(n: u64) -> (r: String)
    ensures
        r@ == dec_str(n as nat),
{
    let v = u64_digits(n);
    chars_to_string(&v)
}

/// Digits of `n`, zero-padded on the left to at least `width` characters.
pub fn u64_digits_pad(n: u64, width: usize) -> (v: Vec<char>)
    ensures
        v@ == dec_str_pad(n as nat, width as nat),
{
    let digits = u64_digits(n);
    if digits.len() >= width {
        return digits;
    }
    let pad = width - digits.len();
    let mut v: Vec<char> = Vec::new();
    let mut i: usize = 0;
    while i < pad
        invariant
            i <= pad,
            v@ =~= zero_chars(i as nat),
        decreases pad - i,
    {
        v.push('0');
        assert(v@ =~= zero_chars((i + 1) as nat));
        i = i + 1;
    }
    let mut j: usize = 0;
    while j < digits.len()
        invariant
            j <= digits@.len(),
            digits@ == dec_str(n as nat),
            v@ =~= zero_chars(pad as nat) + digits@.take(j as int),
        decreases digits@.len() - j,
    {
        v.push(digits[j]);
        assert(v@ =~= zero_chars(pad as nat) + digits@.take(j as int + 1));
        j = j + 1;
    }
    assert(digits@.take(digits@.len() as int) =~= digits@);
    v
}

/// Digits of a signed value, with a leading minus sign when negative.
pub fn i64_digits(n: i64) -> (v: Vec<char>)
    ensures
        v@ == dec_str_signed(n as int),
{
    if n >= 0 {
        u64_digits(n as u64)
    } else {
        let magnitude: u64 = (-(n as i128)) as u64;
        let digits = u64_digits(magnitude);
        let mut v: Vec<char> = Vec::new();
        v.push('-');
        let mut j: usize = 0;
        while j < digits.len()
            invariant
                j <= digits@.len(),
                digits@ == dec_str(magnitude as nat),
                v@ =~= seq!['-'] + digits@.take(j as int),
            decreases digits@.len() - j,
        {
            v.push(digits[j]);
            assert(v@ =~= seq!['-'] + digits@.take(j as int + 1));
            j = j + 1;
        }
        assert(digits@.take(digits@.len() as int) =~= digits@);
        assert(magnitude == -(n as int));
        v
    }
}

} // verus!
