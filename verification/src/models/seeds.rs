//! The seeds of the engine's random choices.
use vstd::prelude::*;

use crate::models::Identifiable;

verus! {

/// The seeds from which the random number generator and the Perlin noise of a
/// character start, kept so that a run can be repeated.
#[derive(Clone, Debug, PartialEq, Eq)]
pub struct Seeds {
    pub id: Option<i64>,
    pub rng_seed: [u8; 32],
    pub perlin_seed: u32,
}

impl Seeds {
    /// The seeds made of the given values, not stored yet.
    pub fn new(rng_seed: [u8; 32], perlin_seed: u32) -> (seeds: Seeds)
        ensures
            seeds.id is None,
            seeds.rng_seed == rng_seed,
            seeds.perlin_seed == perlin_seed,
    {
        Seeds { id: None, rng_seed, perlin_seed }
    }
}

impl Identifiable for Seeds {
    fn id(&self) -> (id: Option<i64>)
        ensures
            id == self.id,
    {
        self.id
    }

    fn set_id(&mut self, id: i64)
        ensures
            final(self).id == Some(id),
            final(self).rng_seed == old(self).rng_seed,
            final(self).perlin_seed == old(self).perlin_seed,
    {
        self.id = Some(id);
    }
}

impl Default for Seeds {
    /// Fresh seeds, drawn at random and not stored yet.
    fn default() -> (seeds: Seeds)
        ensures
            seeds.id is None,
    {
        Seeds::new(rng_seed_default(), perlin_seed_default())
    }
}

/// Draws a generator seed with `rand::random`.
///
/// Nothing is claimed of the bytes: they differ from call to call.
#[verifier::external_body]
fn rng_seed_default() -> (seed: [u8; 32]) {
    rand::random()
}

/// Draws a Perlin seed with `rand::random`.
///
/// Nothing is claimed of the number: it differs from call to call.
#[verifier::external_body]
fn perlin_seed_default() -> (seed: u32) {
    rand::random()
}

} // verus!
