use vstd::prelude::*;

verus! {

/// Declares rltk's random number generator so it can live in a field;
/// its value is opaque to the verifier.
#[verifier::external_type_specification]
#[verifier::external_body]
pub struct ExRandomNumberGenerator(rltk::RandomNumberGenerator);

/// The simulation's random source: a thin shell around rltk's xorshift
/// generator. Nothing is assumed about the drawn values beyond their
/// range, so everything built on top holds for every outcome.
pub struct GameRng {
    pub inner: rltk::RandomNumberGenerator,
}

impl GameRng {
    /// Relies on rltk::RandomNumberGenerator::new, which seeds itself
    /// from entropy.
    #[verifier::external_body]
    pub fn new() -> (r: GameRng)
    {
        GameRng { inner: rltk::RandomNumberGenerator::new() }
    }

    /// Relies on rltk::RandomNumberGenerator::seeded, which seeds the
    /// generator from the given value.
    #[verifier::external_body]
    pub fn seeded(seed: u64) -> (r: GameRng)
    {
        GameRng { inner: rltk::RandomNumberGenerator::seeded(seed) }
    }

    /// Relies on rltk::RandomNumberGenerator::roll_dice: the sum of `n`
    /// dice of `die_type` sides, each drawn from `1..=die_type`.
    #[verifier::external_body]
    pub fn roll_dice(&mut self, n: i32, die_type: i32) -> (r: i32)
        requires
            1 <= n,
            1 <= die_type,
            die_type < i32::MAX,
            n * die_type <= i32::MAX,
        ensures
            n <= r <= n * die_type,
    {
        self.inner.roll_dice(n, die_type)
    }

    /// Relies on rltk::RandomNumberGenerator::range: a value drawn from
    /// `min..max`, inclusive of `min` and exclusive of `max`.
    #[verifier::external_body]
    pub fn range(&mut self, min: i32, max: i32) -> (r: i32)
        requires
            min < max,
        ensures
            min <= r < max,
    {
        self.inner.range(min, max)
    }
}

} // verus!
