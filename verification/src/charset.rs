//! The fixed character classes a password is drawn from: lowercase letters,
//! uppercase letters, digits and symbols, together with the set of visually
//! ambiguous characters that can optionally be filtered out of the
//! alphanumeric classes. Symbols are never filtered for ambiguity.

use vstd::prelude::*;

verus! {

/// A lowercase letter: one of a-z.
pub open spec fn is_lowercase(c: char) -> bool {
    ('a' as int) <= c as int && c as int <= ('z' as int)
}

/// An uppercase letter: one of A-Z.
pub open spec fn is_uppercase(c: char) -> bool {
    ('A' as int) <= c as int && c as int <= ('Z' as int)
}

/// A decimal digit: one of 0-9.
pub open spec fn is_digit(c: char) -> bool {
    ('0' as int) <= c as int && c as int <= ('9' as int)
}

/// One of the fixed symbol characters.
pub open spec fn is_symbol(c: char) -> bool {
    c == '!' || c == '@' || c == '#' || c == '$' || c == '%' || c == '&' || c == '.' || c == '-'
        || c == '_' || c == '*'
}

/// A character that is easily confused with another one (0/O, 1/I/l, 5/S).
pub open spec fn is_ambiguous(c: char) -> bool {
    c == '0' || c == 'O' || c == '1' || c == 'I' || c == 'l' || c == '5' || c == 'S'
}

/// Runtime test for `is_symbol`.
pub fn is_symbol_char(c: char) -> (b: bool)
    ensures
        b == is_symbol(c),
{
    c == '!' || c == '@' || c == '#' || c == '$' || c == '%' || c == '&' || c == '.' || c == '-'
        || c == '_' || c == '*'
}

/// Runtime test for `is_ambiguous`.
pub fn is_ambiguous_char(c: char) -> (b: bool)
    ensures
        b == is_ambiguous(c),
{
    c == '0' || c == 'O' || c == '1' || c == 'I' || c == 'l' || c == '5' || c == 'S'
}

/// How many lowercase letters remain once ambiguous ones are filtered.
pub open spec fn lowercase_len(avoid_ambiguous: bool) -> int {
    if avoid_ambiguous {
        25
    } else {
        26
    }
}

/// How many uppercase letters remain once ambiguous ones are filtered.
pub open spec fn uppercase_len(avoid_ambiguous: bool) -> int {
    if avoid_ambiguous {
        23
    } else {
        26
    }
}

/// How many digits remain once ambiguous ones are filtered.
pub open spec fn digit_len(avoid_ambiguous: bool) -> int {
    if avoid_ambiguous {
        7
    } else {
        10
    }
}

/// How many symbols there are; the symbol class is never filtered.
pub open spec fn symbol_len() -> int {
    10
}

/// The lowercase alphabet, minus the ambiguous letter when asked. The
/// characters come out in code-point order, so no character repeats: with
/// the stated length, the table holds each admissible character exactly
/// once.
pub fn lowercase_chars(avoid_ambiguous: bool) -> (v: Vec<char>)
    ensures
        v@.len() == lowercase_len(avoid_ambiguous),
        forall|i: int|
            0 <= i < v@.len() ==> is_lowercase(#[trigger] v@[i]) && (avoid_ambiguous
                ==> !is_ambiguous(v@[i])),
        forall|i: int, j: int|
            0 <= i < j < v@.len() ==> ((#[trigger] v@[i]) as int) < ((#[trigger] v@[j]) as int),
{
    let mut v: Vec<char> = Vec::new();
    let mut b: u8 = 97;
    while b <= 122
        invariant
            97 <= b <= 123,
            v@.len() == b - 97 - (if avoid_ambiguous && b > 108 {
                1int
            } else {
                0int
            }),
            forall|i: int|
                0 <= i < v@.len() ==> is_lowercase(#[trigger] v@[i]) && (avoid_ambiguous
                    ==> !is_ambiguous(v@[i])),
            forall|i: int| 0 <= i < v@.len() ==> ((#[trigger] v@[i]) as int) < b as int,
            forall|i: int, j: int|
                0 <= i < j < v@.len() ==> ((#[trigger] v@[i]) as int) < ((#[trigger] v@[j]) as int),
        decreases 123 - b,
    {
        if !(avoid_ambiguous && b == 108) {
            v.push(b as char);
        }
        b += 1;
    }
    v
}

/// The uppercase alphabet, minus the ambiguous letters when asked. The
/// characters come out in code-point order, so no character repeats: with
/// the stated length, the table holds each admissible character exactly
/// once.
pub fn uppercase_chars(avoid_ambiguous: bool) -> (v: Vec<char>)
    ensures
        v@.len() == uppercase_len(avoid_ambiguous),
        forall|i: int|
            0 <= i < v@.len() ==> is_uppercase(#[trigger] v@[i]) && (avoid_ambiguous
                ==> !is_ambiguous(v@[i])),
        forall|i: int, j: int|
            0 <= i < j < v@.len() ==> ((#[trigger] v@[i]) as int) < ((#[trigger] v@[j]) as int),
{
    let mut v: Vec<char> = Vec::new();
    let mut b: u8 = 65;
    while b <= 90
        invariant
            65 <= b <= 91,
            forall|i: int| 0 <= i < v@.len() ==> ((#[trigger] v@[i]) as int) < b as int,
            forall|i: int, j: int|
                0 <= i < j < v@.len() ==> ((#[trigger] v@[i]) as int) < ((#[trigger] v@[j]) as int),
            v@.len() == b - 65 - (if !avoid_ambiguous {
                0int
            } else if b <= 73 {
                0int
            } else if b <= 79 {
                1int
            } else if b <= 83 {
                2int
            } else {
                3int
            }),
            forall|i: int|
                0 <= i < v@.len() ==> is_uppercase(#[trigger] v@[i]) && (avoid_ambiguous
                    ==> !is_ambiguous(v@[i])),
        decreases 91 - b,
    {
        if !(avoid_ambiguous && (b == 73 || b == 79 || b == 83)) {
            v.push(b as char);
        }
        b += 1;
    }
    v
}

/// The digit alphabet, minus the ambiguous digits when asked. The characters
/// come out in code-point order, so no character repeats: with the stated
/// length, the table holds each admissible character exactly once.
pub fn digit_chars(avoid_ambiguous: bool) -> (v: Vec<char>)
    ensures
        v@.len() == digit_len(avoid_ambiguous),
        forall|i: int|
            0 <= i < v@.len() ==> is_digit(#[trigger] v@[i]) && (avoid_ambiguous ==> !is_ambiguous(
                v@[i],
            )),
        forall|i: int, j: int|
            0 <= i < j < v@.len() ==> ((#[trigger] v@[i]) as int) < ((#[trigger] v@[j]) as int),
{
    let mut v: Vec<char> = Vec::new();
    let mut b: u8 = 48;
    while b <= 57
        invariant
            48 <= b <= 58,
            forall|i: int| 0 <= i < v@.len() ==> ((#[trigger] v@[i]) as int) < b as int,
            forall|i: int, j: int|
                0 <= i < j < v@.len() ==> ((#[trigger] v@[i]) as int) < ((#[trigger] v@[j]) as int),
            v@.len() == b - 48 - (if !avoid_ambiguous {
                0int
            } else if b <= 48 {
                0int
            } else if b <= 49 {
                1int
            } else if b <= 53 {
                2int
            } else {
                3int
            }),
            forall|i: int|
                0 <= i < v@.len() ==> is_digit(#[trigger] v@[i]) && (avoid_ambiguous
                    ==> !is_ambiguous(v@[i])),
        decreases 58 - b,
    {
        if !(avoid_ambiguous && (b == 48 || b == 49 || b == 53)) {
            v.push(b as char);
        }
        b += 1;
    }
    v
}

/// The symbol alphabet, character for character. Ambiguity filtering never
/// applies to it.
pub fn symbol_chars() -> (v: Vec<char>)
    ensures
        v@ == "!@#$%&.-_*"@,
        v@.len() == symbol_len(),
        forall|i: int| 0 <= i < v@.len() ==> is_symbol(#[trigger] v@[i]),
{
    let mut v: Vec<char> = Vec::new();
    v.push('!');
    v.push('@');
    v.push('#');
    v.push('$');
    v.push('%');
    v.push('&');
    v.push('.');
    v.push('-');
    v.push('_');
    v.push('*');
    proof {
        reveal_strlit("!@#$%&.-_*");
        assert(v@ =~= "!@#$%&.-_*"@);
    }
    v
}

/// No symbol is an ambiguous character, and no character of an alphanumeric
/// class is a symbol: the classes a password is drawn from do not overlap
/// with each other or with the ambiguous set on the symbol side.
pub proof fn lemma_symbol_class_disjoint(c: char)
    ensures
        is_symbol(c) ==> !is_ambiguous(c),
        is_lowercase(c) ==> !is_symbol(c),
        is_uppercase(c) ==> !is_symbol(c),
        is_digit(c) ==> !is_symbol(c),
{
}

/// The four class alphabets as plain strings.
pub struct CharacterSets {
    /// Lowercase letters: a-z.
    pub lowercase: &'static str,
    /// Uppercase letters: A-Z.
    pub uppercase: &'static str,
    /// Decimal digits: 0-9.
    pub digits: &'static str,
    /// Symbol characters.
    pub symbols: &'static str,
}

impl CharacterSets {
    /// The fixed table of class alphabets.
    pub fn defaults() -> (r: CharacterSets)
        ensures
            r.lowercase@ == "abcdefghijklmnopqrstuvwxyz"@,
            r.uppercase@ == "ABCDEFGHIJKLMNOPQRSTUVWXYZ"@,
            r.digits@ == "0123456789"@,
            r.symbols@ == "!@#$%&.-_*"@,
    {
        CharacterSets {
            lowercase: "abcdefghijklmnopqrstuvwxyz",
            uppercase: "ABCDEFGHIJKLMNOPQRSTUVWXYZ",
            digits: "0123456789",
            symbols: "!@#$%&.-_*",
        }
    }
}

/// The characters that `is_ambiguous` recognises, as a plain string.
pub fn ambiguous_chars() -> (s: &'static str)
    ensures
        s@ == "0O1Il5S"@,
{
    "0O1Il5S"
}

} // verus!
