//! The pseudo-random word streams that feed the data points.
//!
//! A generator of the `rand` crate is seen as the endless stream of 32-bit
//! words that it will still hand out. The functions of this module that draw
//! from a generator are believed, not proved: each says which words of the
//! stream make up the value drawn, and how many words are gone afterwards.

use rand::rngs::StdRng;
use rand::Rng;
use rand::SeedableRng;
use vstd::prelude::*;

verus! {

/// Declares `StdRng` of `rand`, the generator that the devices draw from.
/// Nothing is known of what is inside one but what `upcoming` names.
#[verifier::external_type_specification]
#[verifier::external_body]
pub struct ExStdRng(StdRng);

/// The words that `rng` will hand out from now on: word 0 comes next. Every
/// index holds a word.
pub uninterp spec fn upcoming(rng: StdRng) -> Map<nat, u32>;

/// The words that a generator made from the 64-bit seed `seed` hands out, from
/// its first word on. Every index holds a word.
pub uninterp spec fn seeded_words(seed: u64) -> Map<nat, u32>;

/// The stream `words` without its first `n` words.
pub open spec fn skip_words(words: Map<nat, u32>, n: nat) -> Map<nat, u32> {
    Map::new(|i: nat| true, |i: nat| words[i + n])
}

/// The stream that is left of `words` once `n` words were drawn.
pub open spec fn after(words: Map<nat, u32>, n: nat) -> Map<nat, u32> {
    if n == 0 {
        words
    } else {
        skip_words(words, n)
    }
}

/// The low 16 bits of a word.
pub open spec fn low_half(word: u32) -> u16 {
    (word % 0x1_0000) as u16
}

/// The 64-bit value whose low half is `low` and whose high half is `high`.
pub open spec fn join_words(low: u32, high: u32) -> u64 {
    (high as u64 * 0x1_0000_0000 + low as u64) as u64
}

/// The 16-bit value that the next draw of such a value takes from `words`.
pub open spec fn next_u16(words: Map<nat, u32>) -> u16 {
    low_half(words[0])
}

/// The 64-bit value that the next draw of such a value takes from `words`.
pub open spec fn next_u64(words: Map<nat, u32>) -> u64 {
    join_words(words[0], words[1])
}

/// Drawing first `a` and then `b` words leaves what drawing `a + b` leaves.
pub proof fn lemma_after_after(words: Map<nat, u32>, a: nat, b: nat)
    ensures
        after(after(words, a), b) == after(words, a + b),
{
}

/// Calls `StdRng::seed_from_u64` of `rand`. Believed: the generator made is
/// determined by `seed`, so its words are those that `seeded_words` names.
#[verifier::external_body]
pub(crate) fn seed_from_u64(seed: u64) -> (rng: StdRng)
    ensures
        upcoming(rng) == seeded_words(seed),
{
    StdRng::seed_from_u64(seed)
}

/// Calls `Rng::gen` of `rand` for a `u16`. Believed: it takes one word from
/// the generator and returns that word's low 16 bits.
#[verifier::external_body]
pub(crate) fn draw_u16(rng: &mut StdRng) -> (value: u16)
    ensures
        value == next_u16(upcoming(*old(rng))),
        upcoming(*final(rng)) == skip_words(upcoming(*old(rng)), 1),
{
    rng.gen::<u16>()
}

/// Calls `Rng::gen` of `rand` for a `u64`. Believed: it takes two words from
/// the generator and returns them joined, the first as the low half.
#[verifier::external_body]
pub(crate) fn draw_u64(rng: &mut StdRng) -> (value: u64)
    ensures
        value == next_u64(upcoming(*old(rng))),
        upcoming(*final(rng)) == skip_words(upcoming(*old(rng)), 2),
{
    rng.gen::<u64>()
}

} // verus!
