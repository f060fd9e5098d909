//! The deterministic random source.
//!
//! The solver forks many copies of the game; every copy must replay the same
//! stream of random draws, so the source is seedable and cloneable, and a
//! clone continues the exact stream of the original.

use vstd::prelude::*;
use rand::RngCore;
use rand::seq::SliceRandom;

verus! {

#[verifier::external_type_specification]
#[verifier::external_body]
pub struct ExChaCha20Rng(rand_chacha::ChaCha20Rng);

/// The generator a seed builds: a pure function of the thirty-two bytes.
pub uninterp spec fn chacha_of_seed(seed: [u8; 32]) -> rand_chacha::ChaCha20Rng;

/// The word a generator draws and the state it leaves behind: a pure
/// function of the state drawn from, so equal generators draw equal
/// streams — the root of the engine's determinism.
pub uninterp spec fn chacha_next(state: rand_chacha::ChaCha20Rng) -> (u64, rand_chacha::ChaCha20Rng);

/// A seedable, cloneable pseudo-random source with a deterministic stream.
pub struct DeterministicChaCha {
    rng: rand_chacha::ChaCha20Rng,
}

impl DeterministicChaCha {
    /// The wrapped generator state.
    pub closed spec fn inner(self) -> rand_chacha::ChaCha20Rng {
        self.rng
    }

    pub fn new(rng: rand_chacha::ChaCha20Rng) -> (r: DeterministicChaCha)
        ensures
            r.inner() == rng,
    {
        DeterministicChaCha { rng }
    }

    /// Relies on `ChaCha20Rng::from_seed`: builds the generator whose stream
    /// is a pure function of the 32-byte seed.
    #[verifier::external_body]
    pub fn from_seed(seed: [u8; 32]) -> (r: DeterministicChaCha)
        ensures
            r.inner() == chacha_of_seed(seed),
    {
        DeterministicChaCha { rng: rand::SeedableRng::from_seed(seed) }
    }

    /// Relies on `ChaCha20Rng::next_u64`: advances the stream and hands out
    /// the next word; both the word and the state left behind depend only
    /// on the state drawn from.
    #[verifier::external_body]
    pub fn next_u64(&mut self) -> (r: u64)
        ensures
            (r, final(self).inner()) == chacha_next(old(self).inner()),
    {
        self.rng.next_u64()
    }
}

impl Clone for DeterministicChaCha {
    /// Relies on `ChaCha20Rng`'s derived `Clone`: the copy carries the same
    /// internal state, so it continues the same stream as the original.
    #[verifier::external_body]
    fn clone(&self) -> (r: Self)
        ensures
            r == *self,
    {
        DeterministicChaCha { rng: self.rng.clone() }
    }
}

/// Relies on `SliceRandom::shuffle` (a Fisher-Yates swap loop): it permutes
/// `v[lo..hi]` in place, so the length is kept, the elements outside the
/// range are untouched, and the range holds the same elements as before.
#[verifier::external_body]
pub fn shuffle_range<T>(v: &mut Vec<T>, lo: usize, hi: usize, rng: &mut DeterministicChaCha)
    requires
        lo <= hi <= old(v).len(),
    ensures
        final(v).len() == old(v).len(),
        forall|i: int| 0 <= i < lo ==> final(v)@[i] == old(v)@[i],
        forall|i: int| hi <= i < old(v).len() ==> final(v)@[i] == old(v)@[i],
        final(v)@.subrange(lo as int, hi as int).to_multiset() == old(v)@.subrange(
            lo as int,
            hi as int,
        ).to_multiset(),
{
    v[lo..hi].shuffle(&mut rng.rng);
}

/// Shuffles a whole deck; the deck holds the same cards afterwards.
pub fn shuffle_vec<T>(v: &mut Vec<T>, rng: &mut DeterministicChaCha)
    ensures
        final(v).len() == old(v).len(),
        final(v)@.to_multiset() == old(v)@.to_multiset(),
{
    let len = v.len();
    shuffle_range(v, 0, len, rng);
    proof {
        assert(v@.subrange(0, len as int) =~= v@);
        assert(old(v)@.subrange(0, len as int) =~= old(v)@);
    }
}

} // verus!
