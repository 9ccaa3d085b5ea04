//! The bit-stream source: a xoshiro256++ generator behind a handle that
//! records, in ghost state, the seed it was built from and how many values
//! it has handed out. Every draw is pinned to `stream_value(seed, index)`,
//! so the whole output stream is a function of the seed alone.

use rand_xoshiro::rand_core::{Rng, SeedableRng};
use rand_xoshiro::Xoshiro256PlusPlus;
use vstd::prelude::*;

verus! {

/// The value of draw number `index` (counting from zero) made by a
/// xoshiro256++ generator that was seeded from `seed`.
pub uninterp spec fn stream_value(seed: u64, index: nat) -> u64;

/// The `count` consecutive stream values starting at draw number `start`.
pub open spec fn stream_segment(seed: u64, start: nat, count: nat) -> Seq<u64> {
    Seq::new(count, |i: int| stream_value(seed, (start + i) as nat))
}

#[verifier::external_type_specification]
#[verifier::external_body]
pub struct ExXoshiro256PlusPlus(Xoshiro256PlusPlus);

/// Relies on `rand_xoshiro::Xoshiro256PlusPlus::seed_from_u64`: the state it
/// builds is a pure function of the seed (a SplitMix64 expansion).
#[verifier::external_body]
fn xoshiro_from_seed(seed: u64) -> Xoshiro256PlusPlus {
    Xoshiro256PlusPlus::seed_from_u64(seed)
}

/// A deterministic source of unsigned 64-bit values. It is created from a
/// seed and advances by one position on every draw; it never fails and is
/// never rewound.
pub struct BitSource {
    rng: Xoshiro256PlusPlus,
    seed: Ghost<u64>,
    drawn: Ghost<nat>,
}

impl BitSource {
    /// The seed this source was created from.
    pub closed spec fn seed(self) -> u64 {
        self.seed@
    }

    /// How many values this source has handed out so far; the next draw
    /// has this stream index.
    pub closed spec fn drawn(self) -> nat {
        self.drawn@
    }

    /// Create a source positioned at the start of the stream of `seed`.
    pub fn from_seed(seed: u64) -> (source: Self)
        ensures
            source.seed() == seed,
            source.drawn() == 0,
    {
        BitSource { rng: xoshiro_from_seed(seed), seed: Ghost(seed), drawn: Ghost(0nat) }
    }

    /// Relies on `Xoshiro256PlusPlus::next_u64` (`rand_core::Rng`): the value
    /// returned and the successor state are pure functions of the current
    /// state, which here is determined by the seed and the number of draws
    /// already made.
    #[verifier::external_body]
    fn next_raw(&mut self) -> (value: u64)
        ensures
            final(self).seed() == old(self).seed(),
            final(self).drawn() == old(self).drawn() + 1,
            value == stream_value(old(self).seed(), old(self).drawn()),
    {
        self.rng.next_u64()
    }

    /// Draw the next value of the stream and advance by one position.
    pub fn draw(&mut self) -> (value: u64)
        ensures
            final(self).seed() == old(self).seed(),
            final(self).drawn() == old(self).drawn() + 1,
            value == stream_value(old(self).seed(), old(self).drawn()),
    {
        self.next_raw()
    }

    /// Draw the next `count` values of the stream, in stream order.
    pub fn draw_many(&mut self, count: usize) -> (values: Vec<u64>)
        ensures
            final(self).seed() == old(self).seed(),
            final(self).drawn() == old(self).drawn() + count,
            values@ == stream_segment(old(self).seed(), old(self).drawn(), count as nat),
    {
        let mut values: Vec<u64> = Vec::new();
        let mut i: usize = 0;
        while i < count
            invariant
                i <= count,
                self.seed() == old(self).seed(),
                self.drawn() == old(self).drawn() + i,
                values@ == stream_segment(old(self).seed(), old(self).drawn(), i as nat),
            decreases count - i,
        {
            let value = self.draw();
            values.push(value);
            i = i + 1;
            proof {
                assert(values@ =~= stream_segment(old(self).seed(), old(self).drawn(), i as nat));
            }
        }
        values
    }

    /// Draw the next `2 * count` values of the stream as `count` consecutive
    /// pairs: pair `i` holds draws number `2*i` and `2*i + 1` past the
    /// current position, in that order.
    pub fn draw_pairs(&mut self, count: usize) -> (pairs: Vec<(u64, u64)>)
        ensures
            final(self).seed() == old(self).seed(),
            final(self).drawn() == old(self).drawn() + 2 * count,
            pairs@.len() == count,
            forall|i: int|
                0 <= i < count ==> (#[trigger] pairs@[i]).0 == stream_value(
                    old(self).seed(),
                    (old(self).drawn() + 2 * i) as nat,
                ) && pairs@[i].1 == stream_value(
                    old(self).seed(),
                    (old(self).drawn() + 2 * i + 1) as nat,
                ),
    {
        let mut pairs: Vec<(u64, u64)> = Vec::new();
        let mut i: usize = 0;
        while i < count
            invariant
                i <= count,
                self.seed() == old(self).seed(),
                self.drawn() == old(self).drawn() + 2 * i,
                pairs@.len() == i,
                forall|j: int|
                    0 <= j < i ==> (#[trigger] pairs@[j]).0 == stream_value(
                        old(self).seed(),
                        (old(self).drawn() + 2 * j) as nat,
                    ) && pairs@[j].1 == stream_value(
                        old(self).seed(),
                        (old(self).drawn() + 2 * j + 1) as nat,
                    ),
            decreases count - i,
        {
            let first = self.draw();
            let second = self.draw();
            pairs.push((first, second));
            i = i + 1;
        }
        pairs
    }

    /// Draw `count` consecutive blocks of `width` values each: block `i`
    /// holds the `width` stream values starting `i * width` positions past
    /// the current one. The sum-of-uniforms approximation consumes one such
    /// block per output sample.
    pub fn draw_blocks(&mut self, count: usize, width: usize) -> (blocks: Vec<Vec<u64>>)
        ensures
            final(self).seed() == old(self).seed(),
            final(self).drawn() == old(self).drawn() + count * width,
            blocks@.len() == count,
            forall|i: int|
                0 <= i < count ==> (#[trigger] blocks@[i])@ == stream_segment(
                    old(self).seed(),
                    (old(self).drawn() + i * width) as nat,
                    width as nat,
                ),
    {
        let mut blocks: Vec<Vec<u64>> = Vec::new();
        let mut i: usize = 0;
        while i < count
            invariant
                i <= count,
                self.seed() == old(self).seed(),
                self.drawn() == old(self).drawn() + i * width,
                blocks@.len() == i,
                forall|j: int|
                    0 <= j < i ==> (#[trigger] blocks@[j])@ == stream_segment(
                        old(self).seed(),
                        (old(self).drawn() + j * width) as nat,
                        width as nat,
                    ),
            decreases count - i,
        {
            let block = self.draw_many(width);
            blocks.push(block);
            proof {
                assert((i + 1) * width == i * width + width) by (nonlinear_arith);
            }
            i = i + 1;
        }
        blocks
    }
}

/// Determinism law: the stream a source will produce is a function of its
/// seed and its position alone, so two sources seeded alike that have made
/// the same number of draws see the same values from here on, whatever
/// counts those draws were grouped into.
pub proof fn lemma_stream_deterministic(first: BitSource, second: BitSource, count: nat)
    requires
        first.seed() == second.seed(),
        first.drawn() == second.drawn(),
    ensures
        stream_segment(first.seed(), first.drawn(), count) == stream_segment(
            second.seed(),
            second.drawn(),
            count,
        ),
{
}

} // verus!
