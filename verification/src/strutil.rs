//! Character and string utilities: decimal digits of a number, and the few
//! conversions between `String` values and character vectors that the rest of
//! the library builds on.

use vstd::prelude::*;
use vstd::std_specs::iter::IteratorSpec;

verus! {

/// The character for one decimal digit.
pub open spec fn spec_digit_char(d: nat) -> char {
    if d == 0 {
        '0'
    } else if d == 1 {
        '1'
    } else if d == 2 {
        '2'
    } else if d == 3 {
        '3'
    } else if d == 4 {
        '4'
    } else if d == 5 {
        '5'
    } else if d == 6 {
        '6'
    } else if d == 7 {
        '7'
    } else if d == 8 {
        '8'
    } else {
        '9'
    }
}

/// The decimal digits of a number, most significant first, with no sign and
/// no leading zero (the number zero is the single digit `0`).
pub open spec fn spec_dec_digits(n: nat) -> Seq<char>
    decreases n,
{
    if n < 10 {
        seq![spec_digit_char(n)]
    } else {
        spec_dec_digits(n / 10).push(spec_digit_char(n % 10))
    }
}

/// The character for one decimal digit.
pub fn digit_char(d: u32) -> (c: char)
    requires
        d < 10,
    ensures
        c == spec_digit_char(d as nat),
{
    match d {
        0 => '0',
        1 => '1',
        2 => '2',
        3 => '3',
        4 => '4',
        5 => '5',
        6 => '6',
        7 => '7',
        8 => '8',
        _ => '9',
    }
}

/// The decimal digits of a number, most significant first.
pub fn dec_digits(n: u32) -> (v: Vec<char>)
    ensures
        v@ == spec_dec_digits(n as nat),
    decreases n,
{
    if n < 10 {
        let mut v: Vec<char> = Vec::new();
        v.push(digit_char(n));
        assert(v@ =~= spec_dec_digits(n as nat));
        v
    } else {
        let mut v = dec_digits(n / 10);
        v.push(digit_char(n % 10));
        assert(v@ =~= spec_dec_digits(n as nat));
        v
    }
}

/// The characters of a string, as a vector.
pub fn str_chars(s: &str) -> (v: Vec<char>)
    ensures
        v@ == s@,
{
    broadcast use vstd::string::next_postcondition, vstd::string::axiom_spec_iter;

    let mut it = s.chars();
    let mut v: Vec<char> = Vec::new();
    loop
        invariant
            it.obeys_prophetic_iter_laws(),
            it.decrease() is Some,
            v@ + it.remaining() == s@,
        ensures
            v@ == s@,
        decreases it.decrease()->0,
    {
        match it.next() {
            Some(c) => { v.push(c) },
            None => {
                proof {
                    assert(it.remaining().len() == 0);
                    assert(v@ =~= s@);
                }
                break ;
            },
        }
    }
    v
}

/// Relies on `char::from_u32`: for a unicode scalar value (one that is not a
/// surrogate and is at most `0x10FFFF`) it returns the character with that
/// code.
#[verifier::external_body]
pub fn char_of_scalar(c: u32) -> (r: char)
    requires
        c < 0xD800 || (0xE000 <= c && c <= 0x10FFFF),
    ensures
        r == (c as char),
{
    char::from_u32(c).unwrap()
}

/// Relies on `String`'s `FromIterator<char>` impl (`collect`): collecting an
/// iterator of characters yields the string of exactly those characters in
/// order.
#[verifier::external_body]
pub fn string_from_chars(v: &Vec<char>) -> (s: String)
    ensures
        s@ == v@,
{
    v.iter().collect()
}

} // verus!
