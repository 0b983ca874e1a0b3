//! Where the chance of the game comes from. The rules draw their numbers
//! through `RandomSource`, so that a game can run on the generator of the
//! thread as well as on a seeded sequence that comes out the same every time.

use vstd::prelude::*;
use rand::Rng;

verus! {

/// A source of numbers within bounds.
pub trait RandomSource: Sized {
    /// Whether one draw between `low` and `high` may give `value` and leave
    /// the source as `after`. Each source says here what its draws are: all
    /// that a caller learns of a draw beyond its bounds.
    spec fn draws(&self, after: Self, low: usize, high: usize, value: usize) -> bool;

    /// Draws a number from `low` to `high`, both included.
    fn next_in_range(&mut self, low: usize, high: usize) -> (value: usize)
        requires
            low <= high,
        ensures
            low <= value <= high,
            old(self).draws(*final(self), low, high, value),
    ;
}

/// Draws a number from `low` to `high`, both included, by `rand::Rng::gen_range`
/// on the generator that `rand::thread_rng` keeps for the calling thread.
/// Which number comes is left open: the contract claims only that it lies
/// within the two bounds, as the sampler's arithmetic shows for a range that
/// is not empty. The generator panics where the system refuses it entropy, at
/// a thread's first draw or when it seeds itself anew; no argument brings
/// that about, so no precondition can leave it out, and the contract is
/// silent on it as it is on memory running out.
#[verifier::external_body]
fn thread_range(low: usize, high: usize) -> (value: usize)
    requires
        low <= high,
    ensures
        low <= value <= high,
{
    rand::thread_rng().gen_range(low..=high)
}

/// The generator of the calling thread, seeded by the system.
#[derive(Clone, Copy, Debug, Default)]
pub struct ThreadSource;

impl RandomSource for ThreadSource {
    /// Any number within the bounds may come: nothing else is known of the
    /// generator of the thread.
    open spec fn draws(&self, after: Self, low: usize, high: usize, value: usize) -> bool {
        low <= value <= high
    }

    fn next_in_range(&mut self, low: usize, high: usize) -> (value: usize) {
        thread_range(low, high)
    }
}

/// The multiplier of the seeded sequence.
pub const SEED_MULTIPLIER: u64 = 6364136223846793005;

/// The increment of the seeded sequence.
pub const SEED_INCREMENT: u64 = 1442695040888963407;

/// How many of the low bits of a state are left out of a draw.
pub const SEED_SHIFT: u64 = 33;

/// The state that follows `state` in the seeded sequence.
pub open spec fn seeded_step(state: u64) -> u64 {
    state.wrapping_mul(SEED_MULTIPLIER).wrapping_add(SEED_INCREMENT)
}

/// The number that a seeded source in `state` draws between `low` and `high`:
/// the high bits of the state that follows, brought into the bounds by their
/// remainder.
pub open spec fn seeded_draw(state: u64, low: usize, high: usize) -> usize
    recommends
        low <= high,
{
    let bits = (seeded_step(state) >> SEED_SHIFT) as usize;
    let width = (high - low) as usize;
    if width == usize::MAX {
        bits
    } else {
        (low + bits % ((width + 1) as usize)) as usize
    }
}

/// A source whose numbers follow from its seed alone.
#[derive(Clone, Copy, Debug, PartialEq, Eq, Structural)]
pub struct SeededSource {
    pub state: u64,
}

impl SeededSource {
    /// A source that starts from `seed`.
    pub fn new(seed: u64) -> (source: Self)
        ensures
            source.state == seed,
    {
        SeededSource { state: seed }
    }
}

impl RandomSource for SeededSource {
    /// The one number that the sequence gives next, and the state it steps
    /// to.
    open spec fn draws(&self, after: Self, low: usize, high: usize, value: usize) -> bool {
        after.state == seeded_step(self.state) && value == seeded_draw(self.state, low, high)
    }

    /// Steps the sequence once and draws from the new state.
    fn next_in_range(&mut self, low: usize, high: usize) -> (value: usize)
        ensures
            final(self).state == seeded_step(old(self).state),
            value == seeded_draw(old(self).state, low, high),
    {
        let stepped = self.state.wrapping_mul(SEED_MULTIPLIER).wrapping_add(SEED_INCREMENT);
        self.state = stepped;
        let bits = (stepped >> SEED_SHIFT) as usize;
        let width = high - low;
        if width == usize::MAX {
            bits
        } else {
            low + bits % (width + 1)
        }
    }
}

} // verus!
