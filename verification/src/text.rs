//! Numbers as text, and a test on text that is handed to C code.

use vstd::prelude::*;

verus! {

/// The character of the decimal digit `d`.
pub open spec fn digit(d: int) -> char {
    if d == 0 {
        '0'
    } else if d == 1 {
        '1'
    } else if d == 2 {
        '2'
    } else if d == 3 {
        '3'
    } else if d == 4 {
        '4'
    } else if d == 5 {
        '5'
    } else if d == 6 {
        '6'
    } else if d == 7 {
        '7'
    } else if d == 8 {
        '8'
    } else {
        '9'
    }
}

/// The decimal digits of `n`, the first of them not 0 unless `n` is 0.
pub open spec fn unsigned_decimal(n: nat) -> Seq<char>
    decreases n,
{
    if n < 10 {
        seq![digit(n as int)]
    } else {
        unsigned_decimal(n / 10).push(digit((n % 10) as int))
    }
}

/// The number `i` in decimal, with a minus sign before it if it is
/// negative.
pub open spec fn decimal(i: int) -> Seq<char> {
    if i < 0 {
        seq!['-'] + unsigned_decimal((-i) as nat)
    } else {
        unsigned_decimal(i as nat)
    }
}

/// `String::push`: appends one character.
#[verifier::external_body]
pub(crate) fn string_push(s: &mut String, c: char)
    ensures
        final(s)@ == old(s)@.push(c),
{
    s.push(c)
}

/// Whether `s` holds a NUL character.
pub fn has_nul(s: &str) -> (found: bool)
    ensures
        found == s@.contains('\0'),
{
    let len = s.unicode_len();
    let mut i: usize = 0;
    while i < len
        invariant
            i <= len,
            len == s@.len(),
            forall|k: int| 0 <= k < i ==> s@[k] != '\0',
        decreases len - i,
    {
        if s.get_char(i) == '\0' {
            return true;
        }
        i = i + 1;
    }
    false
}

/// `ToString::to_string` of an `i32`: the number in decimal.
#[verifier::external_body]
pub(crate) fn i32_to_string(value: i32) -> (text: String)
    ensures
        text@ == decimal(value as int),
{
    value.to_string()
}

/// `ToString::to_string` of a `u32`: the number in decimal.
#[verifier::external_body]
pub(crate) fn u32_to_string(value: u32) -> (text: String)
    ensures
        text@ == decimal(value as int),
{
    value.to_string()
}

/// `ToString::to_string` of a `usize`: the number in decimal.
#[verifier::external_body]
pub(crate) fn usize_to_string(value: usize) -> (text: String)
    ensures
        text@ == decimal(value as int),
{
    value.to_string()
}

} // verus!
