//! Text primitives: character classes, decimal rendering and string assembly.

use vstd::prelude::*;
use vstd::string::*;

verus! {

/// What `char::is_alphanumeric` answers for a character: membership in the
/// Unicode classes Alphabetic, Nd, Nl or No.
pub uninterp spec fn char_is_alphanumeric(c: char) -> bool;

/// What `char::is_alphabetic` answers for a character: membership in the
/// Unicode class Alphabetic.
pub uninterp spec fn char_is_alphabetic(c: char) -> bool;

/// `char::is_alphanumeric` is a fixed table lookup; its answer is named by
/// [`char_is_alphanumeric`] and nothing more is claimed about it.
pub assume_specification[ char::is_alphanumeric ](c: char) -> (answer: bool)
    ensures
        answer == char_is_alphanumeric(c),
;

/// `char::is_alphabetic` is a fixed table lookup; its answer is named by
/// [`char_is_alphabetic`] and nothing more is claimed about it.
pub assume_specification[ char::is_alphabetic ](c: char) -> (answer: bool)
    ensures
        answer == char_is_alphabetic(c),
;

/// `String::push` appends exactly the given character.
pub assume_specification[ String::push ](s: &mut String, c: char)
    ensures
        final(s)@ == old(s)@.push(c),
;

/// The character that writes the decimal digit `d`.
pub open spec fn digit_char(d: nat) -> char {
    if d == 0 {
        '0'
    } else if d == 1 {
        '1'
    } else if d == 2 {
        '2'
    } else if d == 3 {
        '3'
    } else if d == 4 {
        '4'
    } else if d == 5 {
        '5'
    } else if d == 6 {
        '6'
    } else if d == 7 {
        '7'
    } else if d == 8 {
        '8'
    } else {
        '9'
    }
}

/// The decimal numeral of `n`, without sign or leading zeros.
pub open spec fn decimal_text(n: nat) -> Seq<char>
    decreases n,
{
    if n < 10 {
        seq![digit_char(n)]
    } else {
        decimal_text(n / 10).push(digit_char(n % 10))
    }
}

fn digit_to_char(d: u64) -> (c: char)
    requires
        d < 10,
    ensures
        c == digit_char(d as nat),
{
    if d == 0 {
        '0'
    } else if d == 1 {
        '1'
    } else if d == 2 {
        '2'
    } else if d == 3 {
        '3'
    } else if d == 4 {
        '4'
    } else if d == 5 {
        '5'
    } else if d == 6 {
        '6'
    } else if d == 7 {
        '7'
    } else if d == 8 {
        '8'
    } else {
        '9'
    }
}

/// Appends the decimal numeral of `n` to `out`.
pub fn push_decimal(out: &mut String, n: u64)
    ensures
        final(out)@ == old(out)@ + decimal_text(n as nat),
    decreases n,
{
    if n >= 10 {
        push_decimal(out, n / 10);
    }
    out.push(digit_to_char(n % 10));
}

/// The decimal numeral of `n` as an owned string.
pub fn decimal_string(n: u64) -> (text: String)
    ensures
        text@ == decimal_text(n as nat),
{
    let mut text = String::new();
    push_decimal(&mut text, n);
    text
}

/// Whether two strings hold the same text.
pub fn str_eq(a: &str, b: &str) -> (same: bool)
    ensures
        same == (a@ == b@),
{
    a.to_owned() == b.to_owned()
}

} // verus!
