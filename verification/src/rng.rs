//! The random choices of a tick, and the source that they are drawn from.
use vstd::bytes::*;
use vstd::prelude::*;

use rand::rngs::StdRng;

use crate::geometry::Point;
use crate::models::seeds::Seeds;

verus! {

/// The draws that were made for this tick.
///
/// The engine decides on them and never draws in the middle of an update, so
/// that a tick with the same observations and the same draws always ends the
/// same way.
#[derive(Clone, Copy, Debug, PartialEq, Eq, Structural)]
pub struct Rng {
    /// A fair coin.
    pub coin: bool,
    /// The sample at the player's position and this tick, which comes out true
    /// seven times in ten.
    pub perlin: bool,
}

impl Rng {
    /// The fair coin of this tick.
    pub fn random_bool(&self) -> (coin: bool)
        ensures
            coin == self.coin,
    {
        self.coin
    }

    /// The sample of this tick.
    pub fn random_perlin_bool(&self) -> (sample: bool)
        ensures
            sample == self.perlin,
    {
        self.perlin
    }
}

impl Default for Rng {
    fn default() -> (rng: Rng)
        ensures
            rng == (Rng { coin: false, perlin: false }),
    {
        Rng { coin: false, perlin: false }
    }
}

/// The generator of the `rand` crate. Nothing is known of what it holds.
#[verifier::external_type_specification]
#[verifier::external_body]
pub struct ExStdRng(rand::rngs::StdRng);

/// Makes the generator that starts from `seed`, with `StdRng::from_seed`.
///
/// Nothing is claimed of the generator.
#[verifier::external_body]
fn rng_from_seed(seed: [u8; 32]) -> (rng: StdRng) {
    rand::SeedableRng::from_seed(seed)
}

/// Draws a boolean with `Rng::random_ratio`, which is true with a chance of
/// `numerator` in `denominator`.
///
/// The draw is always true when the two are equal and never true when the
/// numerator is zero; of any other draw nothing is claimed. The ratios on
/// which the outside function panics are left out.
#[verifier::external_body]
fn random_ratio(rng: &mut StdRng, numerator: u32, denominator: u32) -> (sample: bool)
    requires
        denominator > 0,
        numerator <= denominator,
    ensures
        numerator == denominator ==> sample,
        numerator == 0 ==> !sample,
{
    rand::Rng::random_ratio(rng, numerator, denominator)
}

/// The first draw, with a chance of `numerator` in `denominator`, of the
/// generator that starts from `seed`.
pub uninterp spec fn spec_seeded_ratio(seed: Seq<u8>, numerator: u32, denominator: u32) -> bool;

/// Starts a generator from `seed` with `StdRng::from_seed` and draws a boolean
/// from it with `Rng::random_ratio`.
///
/// The draw is claimed to depend on the seed and the ratio alone. That is so
/// of the release of `rand` that this crate is built with, where the generator
/// is a ChaCha stream set up from the seed and the draw compares the stream's
/// first number with the ratio; the documentation of `rand` keeps the right to
/// change the generator in a later release. The ratios on which the outside
/// function panics are left out.
#[verifier::external_body]
fn seeded_ratio(seed: [u8; 32], numerator: u32, denominator: u32) -> (sample: bool)
    requires
        denominator > 0,
        numerator <= denominator,
    ensures
        sample == spec_seeded_ratio(seed@, numerator, denominator),
{
    let mut rng: StdRng = rand::SeedableRng::from_seed(seed);
    rand::Rng::random_ratio(&mut rng, numerator, denominator)
}

/// Out of how many samples [`SAMPLE_NUMERATOR`] come out true.
pub const SAMPLE_DENOMINATOR: u32 = 10;

/// How many samples out of [`SAMPLE_DENOMINATOR`] come out true.
pub const SAMPLE_NUMERATOR: u32 = 7;

/// A coordinate moved into the unsigned numbers, its order kept.
pub open spec fn spec_offset(value: i32) -> u32 {
    (value + 0x8000_0000) as u32
}

/// Moves a coordinate into the unsigned numbers.
pub fn offset(value: i32) -> (moved: u32)
    ensures
        moved == spec_offset(value),
{
    (value as i64 + 0x8000_0000) as u32
}

/// The seed of the sample at `(x, y)` and `tick`: the bytes of the Perlin
/// seed, of the two coordinates and of the tick, each with its lowest byte
/// first, followed by zeros.
pub open spec fn spec_sample_seed(perlin_seed: u32, x: i32, y: i32, tick: u64) -> Seq<u8> {
    spec_u32_to_le_bytes(perlin_seed) + spec_u32_to_le_bytes(spec_offset(x))
        + spec_u32_to_le_bytes(spec_offset(y)) + spec_u64_to_le_bytes(tick) + Seq::new(
        12,
        |i: int| 0u8,
    )
}

/// Copies `bytes` into `seed` from the index `at` on.
fn copy_into(seed: &mut [u8; 32], at: usize, bytes: &Vec<u8>)
    requires
        at + bytes@.len() <= 32,
    ensures
        final(seed)@ == old(seed)@.take(at as int) + bytes@ + old(seed)@.skip(
            at + bytes@.len(),
        ),
{
    let mut i: usize = 0;
    while i < bytes.len()
        invariant
            at + bytes@.len() <= 32,
            i <= bytes@.len(),
            seed@ == old(seed)@.take(at as int) + bytes@.take(i as int) + old(seed)@.skip(at + i),
        decreases bytes@.len() - i,
    {
        seed[at + i] = bytes[i];
        i = i + 1;
        assert(seed@ =~= old(seed)@.take(at as int) + bytes@.take(i as int) + old(seed)@.skip(
            at + i,
        ));
    }
    assert(bytes@.take(i as int) =~= bytes@);
}

/// Builds the seed of the sample at `(x, y)` and `tick`.
pub fn sample_seed(perlin_seed: u32, x: i32, y: i32, tick: u64) -> (seed: [u8; 32])
    ensures
        seed@ == spec_sample_seed(perlin_seed, x, y, tick),
{
    proof {
        lemma_auto_spec_u32_to_from_le_bytes();
        lemma_auto_spec_u64_to_from_le_bytes();
    }
    let mut seed = [0u8;32];
    let ghost zeros = seed@;
    copy_into(&mut seed, 0, &u32_to_le_bytes(perlin_seed));
    copy_into(&mut seed, 4, &u32_to_le_bytes(offset(x)));
    copy_into(&mut seed, 8, &u32_to_le_bytes(offset(y)));
    copy_into(&mut seed, 12, &u64_to_le_bytes(tick));
    assert(seed@ =~= spec_sample_seed(perlin_seed, x, y, tick)) by {
        assert(zeros.skip(20) =~= Seq::new(12, |i: int| 0u8));
    }
    seed
}

/// Two samples have the same seed only if they are taken with the same Perlin
/// seed, at the same position and at the same tick.
pub proof fn lemma_sample_seed_injective(
    perlin_seed: u32,
    x: i32,
    y: i32,
    tick: u64,
    other_perlin_seed: u32,
    other_x: i32,
    other_y: i32,
    other_tick: u64,
)
    requires
        spec_sample_seed(perlin_seed, x, y, tick) == spec_sample_seed(
            other_perlin_seed,
            other_x,
            other_y,
            other_tick,
        ),
    ensures
        perlin_seed == other_perlin_seed,
        x == other_x,
        y == other_y,
        tick == other_tick,
{
    lemma_auto_spec_u32_to_from_le_bytes();
    lemma_auto_spec_u64_to_from_le_bytes();
    let seed = spec_sample_seed(perlin_seed, x, y, tick);
    let other = spec_sample_seed(other_perlin_seed, other_x, other_y, other_tick);
    assert(seed.subrange(0, 4) =~= spec_u32_to_le_bytes(perlin_seed));
    assert(other.subrange(0, 4) =~= spec_u32_to_le_bytes(other_perlin_seed));
    assert(seed.subrange(4, 8) =~= spec_u32_to_le_bytes(spec_offset(x)));
    assert(other.subrange(4, 8) =~= spec_u32_to_le_bytes(spec_offset(other_x)));
    assert(seed.subrange(8, 12) =~= spec_u32_to_le_bytes(spec_offset(y)));
    assert(other.subrange(8, 12) =~= spec_u32_to_le_bytes(spec_offset(other_y)));
    assert(seed.subrange(12, 20) =~= spec_u64_to_le_bytes(tick));
    assert(other.subrange(12, 20) =~= spec_u64_to_le_bytes(other_tick));
    assert(spec_u32_from_le_bytes(spec_u32_to_le_bytes(perlin_seed)) == perlin_seed);
    assert(spec_u32_from_le_bytes(spec_u32_to_le_bytes(spec_offset(x))) == spec_offset(x));
    assert(spec_u32_from_le_bytes(spec_u32_to_le_bytes(spec_offset(y))) == spec_offset(y));
    assert(spec_u64_from_le_bytes(spec_u64_to_le_bytes(tick)) == tick);
}

/// The point at which a player at `pos` is sampled: the position, or the
/// origin if the position is not known.
pub open spec fn spec_sample_point(pos: Option<Point>) -> Point {
    match pos {
        Some(pos) => pos,
        None => Point { x: 0, y: 0 },
    }
}

/// The sample of a run with the Perlin seed `perlin_seed` for a player at
/// `pos` and the tick `tick`. It depends on these three alone, so that a run
/// that is repeated takes the same samples.
pub open spec fn spec_sample(perlin_seed: u32, pos: Option<Point>, tick: u64) -> bool {
    let at = spec_sample_point(pos);
    spec_seeded_ratio(
        spec_sample_seed(perlin_seed, at.x, at.y, tick),
        SAMPLE_NUMERATOR,
        SAMPLE_DENOMINATOR,
    )
}

/// The source of the random choices of a run, started from stored seeds.
pub struct RandomSource {
    rng: StdRng,
    perlin_seed: u32,
}

impl RandomSource {
    /// The Perlin seed that the source was started with.
    pub closed spec fn spec_perlin_seed(&self) -> u32 {
        self.perlin_seed
    }

    /// The source that starts from `seeds`.
    pub fn new(seeds: &Seeds) -> (source: RandomSource)
        ensures
            source.spec_perlin_seed() == seeds.perlin_seed,
    {
        RandomSource { rng: rng_from_seed(seeds.rng_seed), perlin_seed: seeds.perlin_seed }
    }

    /// Draws the choices of the tick `tick` for a player at `pos`: a fair coin
    /// from the generator of the run, of which nothing can be said, and the
    /// sample of the tick, true seven times in ten, which is the first draw of
    /// a generator that starts from the seed of the sample. A player of
    /// unknown position is sampled at the origin.
    pub fn draw(&mut self, pos: Option<Point>, tick: u64) -> (draws: Rng)
        ensures
            final(self).spec_perlin_seed() == old(self).spec_perlin_seed(),
            draws.perlin == spec_sample(old(self).spec_perlin_seed(), pos, tick),
    {
        let at = match pos {
            Some(pos) => pos,
            None => Point::new(0, 0),
        };
        let coin = random_ratio(&mut self.rng, 1, 2);
        let perlin = seeded_ratio(
            sample_seed(self.perlin_seed, at.x, at.y, tick),
            SAMPLE_NUMERATOR,
            SAMPLE_DENOMINATOR,
        );
        Rng { coin, perlin }
    }
}

} // verus!
