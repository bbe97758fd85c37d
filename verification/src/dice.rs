use vstd::prelude::*;
use rand::rngs::StdRng;
use rand::Rng;
use rand::SeedableRng;

verus! {

/// The generator of the `rand` crate that the engine draws from. Nothing is
/// known of its state.
#[verifier::external_type_specification]
#[verifier::external_body]
pub struct ExStdRng(rand::rngs::StdRng);

/// Calls `SeedableRng::from_entropy` for `StdRng`: a generator seeded by the
/// operating system. Nothing is claimed of it. The call panics where the
/// operating system has no randomness to give.
#[verifier::external_body]
fn generator_from_entropy() -> StdRng {
    StdRng::from_entropy()
}

/// Calls `SeedableRng::seed_from_u64` for `StdRng`: the generator that the
/// seed determines. Nothing is claimed of it.
#[verifier::external_body]
fn generator_from_seed(seed: u64) -> StdRng {
    StdRng::seed_from_u64(seed)
}

/// Calls `Rng::gen_range` on the half-open range from 0 to `bound`. The range
/// must not be empty, or the call panics; the value lies in the range.
#[verifier::external_body]
fn generate_below(rng: &mut StdRng, bound: u64) -> (draw: u64)
    requires
        bound > 0,
    ensures
        draw < bound,
{
    rng.gen_range(0..bound)
}

/// The one source of chance of a match. Every random decision of the engine
/// is a draw from it, so a match played with a seeded `Dice` can be replayed.
pub struct Dice {
    rng: StdRng,
}

/// The lowest jitter, in hundredths: a fifth off.
pub const JITTER_LOW: u64 = 80;

/// The end of the jitter's range, in hundredths: no jitter reaches a fifth
/// on top.
pub const JITTER_HIGH: u64 = 120;

/// Whether a trial with `favourable` winning draws comes out a success on
/// `draw`.
pub open spec fn trial_succeeds(favourable: u64, draw: u64) -> bool {
    draw < favourable
}

impl Dice {
    /// A source seeded by the operating system: no two matches alike.
    pub fn new() -> Self {
        Dice { rng: generator_from_entropy() }
    }

    /// A source that `seed` determines.
    pub fn seeded(seed: u64) -> Self {
        Dice { rng: generator_from_seed(seed) }
    }

    /// A uniform draw from `0..bound`.
    pub fn below(&mut self, bound: u64) -> (draw: u64)
        requires
            bound > 0,
        ensures
            draw < bound,
    {
        generate_below(&mut self.rng, bound)
    }

    /// A jitter: a factor, in hundredths, by which a weight is shaken before
    /// a draw.
    pub fn jitter(&mut self) -> (factor: u64)
        ensures
            JITTER_LOW <= factor < JITTER_HIGH,
    {
        let offset: u64 = self.below(JITTER_HIGH - JITTER_LOW);
        JITTER_LOW + offset
    }

    /// A uniform draw from `low..high`, or `None` where that range is empty.
    pub fn roll(&mut self, low: u64, high: u64) -> (draw: Option<u64>)
        ensures
            draw is Some <==> low < high,
            draw matches Some(value) ==> low <= value < high,
    {
        if low < high {
            let offset: u64 = self.below(high - low);
            Some(low + offset)
        } else {
            None
        }
    }

    /// One trial that succeeds in `favourable` cases out of `cases`. With no
    /// case at all the trial fails; with as many favourable cases as cases,
    /// or more, it succeeds.
    pub fn chance(&mut self, favourable: u64, cases: u64) -> (hit: bool)
        ensures
            cases == 0 ==> !hit,
            favourable == 0 ==> !hit,
            0 < cases <= favourable ==> hit,
            cases > 0 ==> exists|draw: u64| draw < cases && hit == trial_succeeds(favourable, draw),
    {
        if cases == 0 {
            false
        } else {
            let draw: u64 = self.below(cases);
            assert(draw < cases && trial_succeeds(favourable, draw) == (draw < favourable));
            draw < favourable
        }
    }
}

} // verus!
