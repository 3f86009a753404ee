//! The password generator.
//!
//! Given a validated configuration, `generate_password` draws characters from
//! the enabled, optionally ambiguity-filtered classes, guarantees one
//! character per enabled class when asked, caps the number of symbols at one
//! per ten characters (rounded up), shuffles the result, and finally moves a
//! leading symbol out of the first position when any other character is
//! available. A configuration with a custom character pool skips all class
//! logic and draws uniformly from the pool.

use vstd::prelude::*;

use crate::charset::{
    digit_chars, is_ambiguous, is_digit, is_lowercase, is_symbol, is_symbol_char, is_uppercase,
    lowercase_chars, symbol_chars, uppercase_chars,
};
use crate::config::{is_valid, spec_non_symbol_len, PasswordConfig};
use crate::rng::{rand_coin, rand_index, shuffle_chars};
use crate::text::chars_to_string;
use vstd::multiset::Multiset;
use vstd::pervasive::VecAdditionalExecFns;

verus! {

/// A character the configuration allows in a password: a member of the
/// custom pool when one is given, otherwise a character of an enabled class
/// that survives ambiguity filtering (symbols are never filtered).
pub open spec fn char_allowed(c: PasswordConfig, ch: char) -> bool {
    match c.custom_charset {
        Some(cs) => cs@.contains(ch),
        None => (c.include_lowercase && is_lowercase(ch) && (c.avoid_ambiguous ==> !is_ambiguous(
            ch,
        ))) || (c.include_uppercase && is_uppercase(ch) && (c.avoid_ambiguous ==> !is_ambiguous(
            ch,
        ))) || (c.include_digits && is_digit(ch) && (c.avoid_ambiguous ==> !is_ambiguous(ch))) || (
        c.include_symbols && is_symbol(ch)),
    }
}

/// How many symbol characters a sequence holds, counted with multiplicity.
/// Stated over the multiset of the sequence, so reordering cannot change it.
pub open spec fn symbol_count(s: Seq<char>) -> nat {
    s.to_multiset().filter(|ch: char| is_symbol(ch)).len()
}

/// The cap on symbols in one password: one per ten characters, rounded up.
pub open spec fn spec_symbol_cap(length: u8) -> int {
    (length + 9) / 10
}

/// The sequence holds at least one lowercase letter.
pub open spec fn contains_lowercase(s: Seq<char>) -> bool {
    exists|i: int| 0 <= i < s.len() && is_lowercase(#[trigger] s[i])
}

/// The sequence holds at least one uppercase letter.
pub open spec fn contains_uppercase(s: Seq<char>) -> bool {
    exists|i: int| 0 <= i < s.len() && is_uppercase(#[trigger] s[i])
}

/// The sequence holds at least one digit.
pub open spec fn contains_digit(s: Seq<char>) -> bool {
    exists|i: int| 0 <= i < s.len() && is_digit(#[trigger] s[i])
}

/// The sequence holds at least one symbol.
pub open spec fn contains_symbol(s: Seq<char>) -> bool {
    exists|i: int| 0 <= i < s.len() && is_symbol(#[trigger] s[i])
}

/// An empty sequence holds no symbols.
proof fn lemma_symbol_count_zero(s: Seq<char>)
    requires
        s.len() == 0,
    ensures
        symbol_count(s) == 0,
{
    broadcast use vstd::seq_lib::group_to_multiset_ensures;
    broadcast use vstd::multiset::group_multiset_axioms;

    let p = |ch: char| is_symbol(ch);
    assert(s.to_multiset().filter(p) =~= Multiset::<char>::empty());
}

/// Appending one character raises the symbol count by one exactly when the
/// character is a symbol.
proof fn lemma_symbol_count_push(s: Seq<char>, c: char)
    ensures
        symbol_count(s.push(c)) == symbol_count(s) + (if is_symbol(c) {
            1int
        } else {
            0int
        }),
{
    broadcast use vstd::seq_lib::group_to_multiset_ensures;
    broadcast use vstd::multiset::group_multiset_axioms;

    let p = |ch: char| is_symbol(ch);
    let m = s.to_multiset();
    assert(s.push(c).to_multiset() == m.insert(c));
    if p(c) {
        assert(m.insert(c).filter(p) =~= m.filter(p).insert(c));
        vstd::multiset::lemma_insert_len(m.filter(p), c);
    } else {
        assert(m.insert(c).filter(p) =~= m.filter(p));
    }
}

/// A sequence of symbols alone has as many symbols as characters.
proof fn lemma_all_symbols_count(s: Seq<char>)
    requires
        forall|i: int| 0 <= i < s.len() ==> is_symbol(#[trigger] s[i]),
    ensures
        symbol_count(s) == s.len(),
    decreases s.len(),
{
    if s.len() == 0 {
        lemma_symbol_count_zero(s);
    } else {
        let t = s.drop_last();
        lemma_all_symbols_count(t);
        lemma_symbol_count_push(t, s.last());
        assert(t.push(s.last()) =~= s);
    }
}

/// Two sequences with the same multiset hold the same characters.
proof fn lemma_perm_membership(a: Seq<char>, b: Seq<char>)
    requires
        a.to_multiset() == b.to_multiset(),
    ensures
        forall|i: int| 0 <= i < b.len() ==> a.contains(#[trigger] b[i]),
{
    broadcast use vstd::seq_lib::group_to_multiset_ensures;

    assert forall|i: int| 0 <= i < b.len() implies a.contains(#[trigger] b[i]) by {
        assert(b.contains(b[i]));
        assert(b.to_multiset().count(b[i]) > 0);
        assert(a.to_multiset().count(b[i]) > 0);
    }
}

/// Reordering a sequence keeps every character allowed.
proof fn lemma_allowed_perm(cfg: PasswordConfig, a: Seq<char>, b: Seq<char>)
    requires
        a.to_multiset() == b.to_multiset(),
        forall|i: int| 0 <= i < a.len() ==> char_allowed(cfg, #[trigger] a[i]),
    ensures
        forall|i: int| 0 <= i < b.len() ==> char_allowed(cfg, #[trigger] b[i]),
{
    lemma_perm_membership(a, b);
    assert forall|i: int| 0 <= i < b.len() implies char_allowed(cfg, #[trigger] b[i]) by {
        assert(a.contains(b[i]));
        let j = choose|j: int| 0 <= j < a.len() && a[j] == b[i];
        assert(char_allowed(cfg, a[j]));
    }
}

/// Appending a character keeps every class already present, and adds the
/// class of the appended character.
proof fn lemma_contains_class_push(s: Seq<char>, c: char)
    ensures
        contains_lowercase(s) ==> contains_lowercase(s.push(c)),
        contains_uppercase(s) ==> contains_uppercase(s.push(c)),
        contains_digit(s) ==> contains_digit(s.push(c)),
        contains_symbol(s) ==> contains_symbol(s.push(c)),
        is_lowercase(c) ==> contains_lowercase(s.push(c)),
        is_uppercase(c) ==> contains_uppercase(s.push(c)),
        is_digit(c) ==> contains_digit(s.push(c)),
        is_symbol(c) ==> contains_symbol(s.push(c)),
{
    let t = s.push(c);
    assert(t[s.len() as int] == c);
    if contains_lowercase(s) {
        let i = choose|i: int| 0 <= i < s.len() && is_lowercase(#[trigger] s[i]);
        assert(t[i] == s[i]);
    }
    if contains_uppercase(s) {
        let i = choose|i: int| 0 <= i < s.len() && is_uppercase(#[trigger] s[i]);
        assert(t[i] == s[i]);
    }
    if contains_digit(s) {
        let i = choose|i: int| 0 <= i < s.len() && is_digit(#[trigger] s[i]);
        assert(t[i] == s[i]);
    }
    if contains_symbol(s) {
        let i = choose|i: int| 0 <= i < s.len() && is_symbol(#[trigger] s[i]);
        assert(t[i] == s[i]);
    }
}

/// Reordering a sequence keeps every class present in it.
proof fn lemma_contains_class_perm(a: Seq<char>, b: Seq<char>)
    requires
        a.to_multiset() == b.to_multiset(),
    ensures
        contains_lowercase(a) ==> contains_lowercase(b),
        contains_uppercase(a) ==> contains_uppercase(b),
        contains_digit(a) ==> contains_digit(b),
        contains_symbol(a) ==> contains_symbol(b),
{
    broadcast use vstd::seq_lib::group_to_multiset_ensures;

    if contains_lowercase(a) {
        let i = choose|i: int| 0 <= i < a.len() && is_lowercase(#[trigger] a[i]);
        assert(a.contains(a[i]));
        assert(b.to_multiset().count(a[i]) > 0);
        assert(b.contains(a[i]));
        let j = choose|j: int| 0 <= j < b.len() && b[j] == a[i];
        assert(is_lowercase(b[j]));
    }
    if contains_uppercase(a) {
        let i = choose|i: int| 0 <= i < a.len() && is_uppercase(#[trigger] a[i]);
        assert(a.contains(a[i]));
        assert(b.to_multiset().count(a[i]) > 0);
        assert(b.contains(a[i]));
        let j = choose|j: int| 0 <= j < b.len() && b[j] == a[i];
        assert(is_uppercase(b[j]));
    }
    if contains_digit(a) {
        let i = choose|i: int| 0 <= i < a.len() && is_digit(#[trigger] a[i]);
        assert(a.contains(a[i]));
        assert(b.to_multiset().count(a[i]) > 0);
        assert(b.contains(a[i]));
        let j = choose|j: int| 0 <= j < b.len() && b[j] == a[i];
        assert(is_digit(b[j]));
    }
    if contains_symbol(a) {
        let i = choose|i: int| 0 <= i < a.len() && is_symbol(#[trigger] a[i]);
        assert(a.contains(a[i]));
        assert(b.to_multiset().count(a[i]) > 0);
        assert(b.contains(a[i]));
        let j = choose|j: int| 0 <= j < b.len() && b[j] == a[i];
        assert(is_symbol(b[j]));
    }
}

/// Swapping two positions of a sequence keeps its multiset.
proof fn lemma_swap_multiset(s: Seq<char>, i: int, j: int)
    requires
        0 <= i < s.len(),
        0 <= j < s.len(),
    ensures
        s.update(i, s[j]).update(j, s[i]).to_multiset() == s.to_multiset(),
{
    broadcast use vstd::seq_lib::group_to_multiset_ensures;
    broadcast use vstd::seq_lib::to_multiset_update;
    broadcast use vstd::multiset::group_multiset_axioms;

    let m = s.to_multiset();
    let s1 = s.update(i, s[j]);
    assert(s.contains(s[i]));
    assert(s.contains(s[j]));
    assert(s1.to_multiset() == m.insert(s[j]).remove(s[i]));
    assert(s1[j] == s[j]);
    assert(s1.update(j, s[i]).to_multiset() == s1.to_multiset().insert(s[i]).remove(s1[j]));
    assert(m.insert(s[j]).remove(s[i]).insert(s[i]).remove(s[j]) =~= m);
}

/// The pool of enabled non-symbol characters: the enabled alphanumeric
/// classes, filtered for ambiguity when asked, one after another.
fn non_symbol_pool(config: &PasswordConfig) -> (v: Vec<char>)
    requires
        config.custom_charset is None,
    ensures
        v@.len() == spec_non_symbol_len(*config),
        forall|i: int|
            0 <= i < v@.len() ==> char_allowed(*config, #[trigger] v@[i]) && !is_symbol(v@[i]),
{
    let mut v: Vec<char> = Vec::new();
    if config.include_lowercase {
        let mut part = lowercase_chars(config.avoid_ambiguous);
        let ghost pre = v@;
        let ghost partview = part@;
        v.append(&mut part);
        proof {
            assert forall|i: int|
                0 <= i < v@.len() implies char_allowed(*config, #[trigger] v@[i]) && !is_symbol(
                v@[i],
            ) by {
                if i >= pre.len() {
                    assert(v@[i] == partview[i - pre.len()]);
                }
                crate::charset::lemma_symbol_class_disjoint(v@[i]);
            }
        }
    }
    if config.include_uppercase {
        let mut part = uppercase_chars(config.avoid_ambiguous);
        let ghost pre = v@;
        let ghost partview = part@;
        v.append(&mut part);
        proof {
            assert forall|i: int|
                0 <= i < v@.len() implies char_allowed(*config, #[trigger] v@[i]) && !is_symbol(
                v@[i],
            ) by {
                if i >= pre.len() {
                    assert(v@[i] == partview[i - pre.len()]);
                }
                crate::charset::lemma_symbol_class_disjoint(v@[i]);
            }
        }
    }
    if config.include_digits {
        let mut part = digit_chars(config.avoid_ambiguous);
        let ghost pre = v@;
        let ghost partview = part@;
        v.append(&mut part);
        proof {
            assert forall|i: int|
                0 <= i < v@.len() implies char_allowed(*config, #[trigger] v@[i]) && !is_symbol(
                v@[i],
            ) by {
                if i >= pre.len() {
                    assert(v@[i] == partview[i - pre.len()]);
                }
                crate::charset::lemma_symbol_class_disjoint(v@[i]);
            }
        }
    }
    v
}

/// A password drawn uniformly, with replacement, from a custom pool.
fn generate_custom_chars(length: u8, charset: &Vec<char>) -> (pw: Vec<char>)
    requires
        charset@.len() > 0,
    ensures
        pw@.len() == length as int,
        forall|i: int| 0 <= i < pw@.len() ==> charset@.contains(#[trigger] pw@[i]),
{
    let mut pw: Vec<char> = Vec::new();
    while pw.len() < length as usize
        invariant
            charset@.len() > 0,
            pw@.len() <= length as int,
            forall|i: int| 0 <= i < pw@.len() ==> charset@.contains(#[trigger] pw@[i]),
        decreases length as int - pw@.len(),
    {
        let k = rand_index(charset.len());
        pw.push(charset[k]);
    }
    pw
}

/// A password drawn from the enabled character classes: one guaranteed
/// character per enabled class when asked, a symbol-density cap of one per
/// ten characters, a uniform shuffle, and no leading symbol whenever any
/// non-symbol character is available.
#[verifier::loop_isolation(false)]
fn generate_class_chars(config: &PasswordConfig) -> (pw: Vec<char>)
    requires
        is_valid(*config),
        config.custom_charset is None,
    ensures
        pw@.len() == config.length as int,
        forall|i: int| 0 <= i < pw@.len() ==> char_allowed(*config, #[trigger] pw@[i]),
        config.require_from_each_set && config.include_lowercase ==> contains_lowercase(pw@),
        config.require_from_each_set && config.include_uppercase ==> contains_uppercase(pw@),
        config.require_from_each_set && config.include_digits ==> contains_digit(pw@),
        config.require_from_each_set && config.include_symbols ==> contains_symbol(pw@),
        config.include_symbols && spec_non_symbol_len(*config) > 0 ==> symbol_count(pw@)
            <= spec_symbol_cap(config.length),
        !config.include_symbols ==> symbol_count(pw@) == 0,
        is_symbol(pw@[0]) ==> (forall|i: int| 0 <= i < pw@.len() ==> is_symbol(#[trigger] pw@[i])),
        spec_non_symbol_len(*config) > 0 && config.length >= 2 ==> !is_symbol(pw@[0]),
{
    let length_usize = config.length as usize;
    let lower = lowercase_chars(config.avoid_ambiguous);
    let upper = uppercase_chars(config.avoid_ambiguous);
    let digits = digit_chars(config.avoid_ambiguous);
    let syms = symbol_chars();

    let cap: u8 = if config.include_symbols {
        (((config.length as u16) + 9) / 10) as u8
    } else {
        0
    };

    let mut pw: Vec<char> = Vec::new();
    let mut symbol_placed: u8 = 0;
    proof {
        lemma_symbol_count_zero(pw@);
    }

    // One guaranteed character from each enabled, non-empty class.
    if config.require_from_each_set {
        if config.include_lowercase && lower.len() > 0 {
            let k = rand_index(lower.len());
            let c = lower[k];
            let ghost pre = pw@;
            pw.push(c);
            proof {
                crate::charset::lemma_symbol_class_disjoint(c);
                lemma_symbol_count_push(pre, c);
                lemma_contains_class_push(pre, c);
            }
        }
        if config.include_uppercase && upper.len() > 0 {
            let k = rand_index(upper.len());
            let c = upper[k];
            let ghost pre = pw@;
            pw.push(c);
            proof {
                crate::charset::lemma_symbol_class_disjoint(c);
                lemma_symbol_count_push(pre, c);
                lemma_contains_class_push(pre, c);
            }
        }
        if config.include_digits && digits.len() > 0 {
            let k = rand_index(digits.len());
            let c = digits[k];
            let ghost pre = pw@;
            pw.push(c);
            proof {
                crate::charset::lemma_symbol_class_disjoint(c);
                lemma_symbol_count_push(pre, c);
                lemma_contains_class_push(pre, c);
            }
        }
        if config.include_symbols && syms.len() > 0 {
            let k = rand_index(syms.len());
            let c = syms[k];
            let ghost pre = pw@;
            pw.push(c);
            symbol_placed += 1;
            proof {
                lemma_symbol_count_push(pre, c);
                lemma_contains_class_push(pre, c);
            }
        }
    }

    let non_syms = non_symbol_pool(config);
    let sym_pool: Vec<char> = if config.include_symbols {
        syms
    } else {
        Vec::new()
    };

    // Fill the remaining positions, biased towards non-symbols: a symbol is
    // drawn only while capped slots remain, and then only when the cap must
    // still be reached or a three-in-ten coin asks for one.
    while pw.len() < length_usize
        invariant
            pw@.len() <= config.length as int,
            forall|i: int| 0 <= i < pw@.len() ==> char_allowed(*config, #[trigger] pw@[i]),
            symbol_placed as int == symbol_count(pw@),
            symbol_placed as int <= pw@.len(),
            spec_non_symbol_len(*config) > 0 ==> symbol_placed as int <= cap as int,
            !config.include_symbols ==> symbol_placed == 0,
            config.require_from_each_set && config.include_lowercase ==> contains_lowercase(pw@),
            config.require_from_each_set && config.include_uppercase ==> contains_uppercase(pw@),
            config.require_from_each_set && config.include_digits ==> contains_digit(pw@),
            config.require_from_each_set && config.include_symbols ==> contains_symbol(pw@),
        decreases config.length as int - pw@.len(),
    {
        let remaining = length_usize - pw.len();
        let slots: u8 = if cap > symbol_placed {
            cap - symbol_placed
        } else {
            0
        };
        let use_symbol = slots > 0 && (remaining <= slots as usize || rand_coin());
        let c: char;
        if use_symbol && sym_pool.len() > 0 {
            let k = rand_index(sym_pool.len());
            c = sym_pool[k];
            symbol_placed += 1;
        } else if non_syms.len() > 0 {
            let k = rand_index(non_syms.len());
            c = non_syms[k];
        } else {
            // Only the symbol class is enabled: the cap cannot bind, since
            // there is nothing else to draw from.
            let k = rand_index(sym_pool.len());
            c = sym_pool[k];
            symbol_placed += 1;
        }
        let ghost pre = pw@;
        pw.push(c);
        proof {
            lemma_symbol_count_push(pre, c);
            lemma_contains_class_push(pre, c);
        }
    }

    // Destroy the construction order.
    let ghost built = pw@;
    shuffle_chars(&mut pw);
    proof {
        lemma_allowed_perm(*config, built, pw@);
        lemma_contains_class_perm(built, pw@);
    }

    // Move a leading symbol out of the first position if any non-symbol
    // character is present.
    let first = pw[0];
    if is_symbol_char(first) {
        let n = pw.len();
        let mut j: usize = 1;
        while j < n && is_symbol_char(pw[j])
            invariant
                1 <= j <= n,
                forall|k: int| 1 <= k < j ==> is_symbol(#[trigger] pw@[k]),
            decreases n - j,
        {
            j += 1;
        }
        if j < n {
            let ghost pre = pw@;
            let cj = pw[j];
            pw.set(0, cj);
            pw.set(j, first);
            proof {
                assert(pw@ =~= pre.update(0, pre[j as int]).update(j as int, pre[0]));
                lemma_swap_multiset(pre, 0, j as int);
                lemma_allowed_perm(*config, pre, pw@);
                lemma_contains_class_perm(pre, pw@);
            }
        } else {
            // Every character is a symbol. The cap then proves that no
            // non-symbol class can be enabled, except for passwords of
            // length one, which the last postcondition leaves out.
            proof {
                assert(forall|i: int| 0 <= i < pw@.len() ==> is_symbol(#[trigger] pw@[i]));
                if spec_non_symbol_len(*config) > 0 && config.length >= 2 {
                    lemma_all_symbols_count(pw@);
                    assert(symbol_count(pw@) == config.length as int);
                    assert((cap as int) < config.length as int);
                    assert(false);
                }
            }
        }
    }
    pw
}

/// One password that satisfies the given, already validated configuration.
///
/// The result has exactly the configured length, every character is drawn
/// from the configured pool (the enabled filtered classes, or the custom
/// pool), ambiguous characters are absent when filtering is on, each enabled
/// class is represented when that is required, symbols stay under the
/// density cap of one per ten characters whenever any non-symbol character
/// is available, and the first character is a symbol only when symbols are
/// all the configuration offers.
pub fn generate_password(config: &PasswordConfig) -> (pw: String)
    requires
        is_valid(*config),
    ensures
        pw@.len() == config.length as int,
        forall|i: int| 0 <= i < pw@.len() ==> char_allowed(*config, #[trigger] pw@[i]),
        config.custom_charset is None && config.avoid_ambiguous ==> (forall|i: int|
            0 <= i < pw@.len() ==> !is_ambiguous(#[trigger] pw@[i])),
        config.custom_charset is None && config.require_from_each_set ==> {
            &&& config.include_lowercase ==> contains_lowercase(pw@)
            &&& config.include_uppercase ==> contains_uppercase(pw@)
            &&& config.include_digits ==> contains_digit(pw@)
            &&& config.include_symbols ==> contains_symbol(pw@)
        },
        config.custom_charset is None && config.include_symbols && spec_non_symbol_len(*config) > 0
            ==> symbol_count(pw@) <= spec_symbol_cap(config.length),
        config.custom_charset is None && !config.include_symbols ==> symbol_count(pw@) == 0,
        config.custom_charset is None && is_symbol(pw@[0]) ==> (forall|i: int|
            0 <= i < pw@.len() ==> is_symbol(#[trigger] pw@[i])),
        config.custom_charset is None && spec_non_symbol_len(*config) > 0 && config.length >= 2
            ==> !is_symbol(pw@[0]),
{
    let chars = match &config.custom_charset {
        Some(cs) => generate_custom_chars(config.length, cs),
        None => generate_class_chars(config),
    };
    proof {
        if config.custom_charset is None && config.avoid_ambiguous {
            assert forall|i: int| 0 <= i < chars@.len() implies !is_ambiguous(
                #[trigger] chars@[i],
            ) by {
                crate::charset::lemma_symbol_class_disjoint(chars@[i]);
            }
        }
    }
    chars_to_string(&chars)
}

} // verus!
