//! Small verified string utilities: building a `String` from characters and
//! rendering small numbers in decimal. The standard library's `String::push`
//! and `String::push_str` are trusted with their documented meaning; all the
//! assembly around them is verified.

use vstd::prelude::*;

verus! {

/// Relies on `String::push`: appends exactly one character.
#[verifier::external_body]
pub(crate) fn push_char(s: &mut String, c: char)
    ensures
        final(s)@ == old(s)@.push(c),
{
    s.push(c);
}

/// Relies on `String::push_str`: appends the characters of the given slice.
#[verifier::external_body]
pub(crate) fn append_str(s: &mut String, t: &str)
    ensures
        final(s)@ == old(s)@ + t@,
{
    s.push_str(t);
}

/// The character for one decimal digit.
pub open spec fn decimal_digit(d: int) -> char {
    if d == 0 {
        '0'
    } else if d == 1 {
        '1'
    } else if d == 2 {
        '2'
    } else if d == 3 {
        '3'
    } else if d == 4 {
        '4'
    } else if d == 5 {
        '5'
    } else if d == 6 {
        '6'
    } else if d == 7 {
        '7'
    } else if d == 8 {
        '8'
    } else {
        '9'
    }
}

/// The decimal rendering of a non-negative number, most significant digit
/// first, without leading zeros (a lone zero for 0).
pub open spec fn spec_decimal(n: int) -> Seq<char>
    decreases n,
{
    if n < 10 {
        seq![decimal_digit(n)]
    } else {
        spec_decimal(n / 10).push(decimal_digit(n % 10))
    }
}

/// The character for one decimal digit, at runtime.
fn digit_char(d: u8) -> (c: char)
    requires
        d < 10,
    ensures
        c == decimal_digit(d as int),
{
    (48 + d) as char
}

/// The decimal rendering of a byte-sized number.
pub fn u8_string(n: u8) -> (s: String)
    ensures
        s@ == spec_decimal(n as int),
{
    proof {
        reveal_with_fuel(spec_decimal, 3);
    }
    let mut s = String::new();
    if n >= 100 {
        let h = n / 10;
        push_char(&mut s, digit_char(h / 10));
        push_char(&mut s, digit_char(h % 10));
        push_char(&mut s, digit_char(n % 10));
    } else if n >= 10 {
        push_char(&mut s, digit_char(n / 10));
        push_char(&mut s, digit_char(n % 10));
    } else {
        push_char(&mut s, digit_char(n));
    }
    s
}

/// A `String` holding exactly the given characters.
pub fn chars_to_string(v: &Vec<char>) -> (s: String)
    ensures
        s@ == v@,
{
    let mut s = String::new();
    let mut i: usize = 0;
    while i < v.len()
        invariant
            i <= v@.len(),
            s@ == v@.take(i as int),
        decreases v@.len() - i,
    {
        push_char(&mut s, v[i]);
        proof {
            assert(v@.take(i as int).push(v@[i as int]) =~= v@.take(i as int + 1));
        }
        i += 1;
    }
    proof {
        assert(v@.take(v@.len() as int) =~= v@);
    }
    s
}

} // verus!
