//! The random source. Every draw goes through the operating-system-seeded
//! ChaCha generator that the rand crate offers as its default, which is
//! cryptographically secure. Nothing is assumed of single outcomes beyond
//! their range; a shuffle is only known to permute its input.

use rand::seq::SliceRandom;
use rand::Rng;
use vstd::prelude::*;

verus! {

/// Relies on rand's `Rng::random_range` over `0..n` with `rand::rng()`, a
/// cryptographically secure generator: returns an index below `n`. It panics
/// on an empty range, which the precondition rules out.
#[verifier::external_body]
pub(crate) fn rand_index(n: usize) -> (r: usize)
    requires
        n > 0,
    ensures
        r < n,
{
    rand::rng().random_range(0..n)
}

/// Relies on rand's `Rng::random_ratio(3, 10)`: a coin that comes up true
/// with probability three in ten. Nothing is known of any single outcome.
#[verifier::external_body]
pub(crate) fn rand_coin() -> bool {
    rand::rng().random_ratio(3, 10)
}

/// Relies on rand's `SliceRandom::shuffle`: permutes the slice in place,
/// uniformly over all permutations. Whatever order comes out, the characters
/// and their multiplicities are unchanged.
#[verifier::external_body]
pub(crate) fn shuffle_chars(v: &mut Vec<char>)
    ensures
        final(v)@.len() == old(v)@.len(),
        final(v)@.to_multiset() == old(v)@.to_multiset(),
{
    v.as_mut_slice().shuffle(&mut rand::rng());
}

} // verus!
