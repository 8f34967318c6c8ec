use vstd::prelude::*;

use crate::crypto::{Crypto, init_state_spec, next_state_spec, next_u32_spec};

verus! {

/// The internal state of the random number generator: four unsigned 32-bit
/// words, all of them always defined. Every seed expands to a valid state,
/// so the type needs no further invariant.
#[derive(Copy, Clone, PartialEq, Eq, Structural, Debug)]
pub struct State {
    pub s0: u32,
    pub s1: u32,
    pub s2: u32,
    pub s3: u32,
}

/// How a signed 32-bit seed is read as an unsigned word: its two's-complement
/// bit pattern.
pub open spec fn seed_word(seed: i32) -> u32 {
    if seed >= 0 {
        seed as u32
    } else {
        (seed + 0x1_0000_0000) as u32
    }
}

/// The lower of the two range bounds, once they are put in order.
pub open spec fn range_lo(min: i32, max: i32) -> int {
    if min <= max {
        min as int
    } else {
        max as int
    }
}

/// The higher of the two range bounds, once they are put in order.
pub open spec fn range_hi(min: i32, max: i32) -> int {
    if min <= max {
        max as int
    } else {
        min as int
    }
}

/// The integer that `range_int` returns from state `s`: the bounds put in
/// order, then `lo` plus one raw draw reduced modulo the width of the range;
/// `lo` itself when the range is empty.
pub open spec fn range_int_result(s: State, min: i32, max: i32) -> int {
    let lo = range_lo(min, max);
    let hi = range_hi(min, max);
    if lo == hi {
        lo
    } else {
        lo + (next_u32_spec(s) as int) % (hi - lo)
    }
}

/// A generator handle: it owns one four-word state, which every distribution
/// call advances in place.
pub struct Random {
    /// The full internal state of the random number generator; it may be read
    /// or overwritten as a plain value.
    pub state: State,
}

impl Random {
    /// Initializes the PRNG with the current time. The seed is whatever the
    /// clock read, so nothing more is promised than that the state is some
    /// seed's expansion.
    pub fn new() -> (r: Random)
        ensures
            exists|seed: u32| r.state == init_state_spec(seed),
    {
        let timestamp = Random::get_timestamp();
        let seed: u32 = (timestamp % 0x1_0000_0000) as u32;
        Random { state: Crypto::init_state(seed) }
    }

    /// (Re)-initializes the PRNG with a given seed.
    pub fn init_state(&mut self, seed: i32)
        ensures
            final(self).state == init_state_spec(seed_word(seed)),
    {
        let word: u32 = if seed >= 0 {
            seed as u32
        } else {
            (seed as i64 + 0x1_0000_0000) as u32
        };
        self.state = Crypto::init_state(word);
    }

    /// Returns a random `i32` within `[min..max)`.
    ///
    /// Minimum is inclusive, maximum is exclusive. Bounds given in the wrong
    /// order are swapped first; an empty range returns its single bound and
    /// draws nothing.
    pub fn range_int(&mut self, min: i32, max: i32) -> (r: i32)
        ensures
            r == range_int_result(old(self).state, min, max),
            min == max ==> *final(self) == *old(self) && r == min,
            min != max ==> final(self).state == next_state_spec(old(self).state),
            min != max ==> range_lo(min, max) <= r < range_hi(min, max),
    {
        let (lo, hi) = if min > max {
            (max, min)
        } else {
            (min, max)
        };

        let diff: u32 = ((hi as i64) - (lo as i64)) as u32;

        if diff > 0 {
            let raw = self.next_u32();
            let off = raw % diff;
            ((lo as i64) + (off as i64)) as i32
        } else {
            lo
        }
    }

    /// Draws one raw 32-bit word, advancing the state by one Xorshift128
    /// step.
    pub fn next_u32(&mut self) -> (r: u32)
        ensures
            final(self).state == next_state_spec(old(self).state),
            r == next_u32_spec(old(self).state),
    {
        Crypto::next_u32(&mut self.state)
    }

    /// Relies on `std::time::SystemTime::now` (read through
    /// `duration_since(UNIX_EPOCH)` and `Duration::as_secs`): the current
    /// wall-clock time as whole seconds since the Unix epoch, or 0 if the
    /// clock reads earlier than the epoch, so the call never panics. The
    /// value depends on the clock, so nothing is promised of it.
    #[verifier::external_body]
    fn get_timestamp() -> u64 {
        std::time::SystemTime::now()
            .duration_since(std::time::UNIX_EPOCH)
            .map(|duration| duration.as_secs())
            .unwrap_or(0)
    }
}

/// Law: giving `range_int` its bounds in either order draws the same value
/// from the same state — the bounds are put in order before anything else.
pub proof fn lemma_range_int_swap(s: State, min: i32, max: i32)
    ensures
        range_int_result(s, min, max) == range_int_result(s, max, min),
{
}

/// Law: `range_int` stays inside the ordered bounds — within `[lo, hi)` when
/// the range is non-empty, and exactly `lo` when it is empty.
pub proof fn lemma_range_int_bounds(s: State, min: i32, max: i32)
    ensures
        range_lo(min, max) != range_hi(min, max) ==> range_lo(min, max)
            <= range_int_result(s, min, max) < range_hi(min, max),
        range_lo(min, max) == range_hi(min, max) ==> range_int_result(s, min, max) == range_lo(
            min,
            max,
        ),
{
    let lo = range_lo(min, max);
    let hi = range_hi(min, max);
    if lo != hi {
        assert(0 <= (next_u32_spec(s) as int) % (hi - lo) < hi - lo);
    }
}

} // verus!
