use vstd::prelude::*;

use crate::random::State;

verus! {

/// The stateless core of the generator: seed expansion and the raw stream
/// step. Distributions are built on top of these two operations.
pub struct Crypto {}

/// One word of the seed expansion: the previous word times 0x6C078965 plus
/// one, modulo 2^32 (the multiplier comes from the MT19937 initializer).
pub open spec fn expand_word(prev: u32) -> u32 {
    ((prev * 0x6C078965 + 1) % 0x1_0000_0000) as u32
}

/// The four-word state a 32-bit seed expands to: the seed itself, then three
/// applications of `expand_word`, each word derived from the previous one.
pub open spec fn init_state_spec(seed: u32) -> State {
    let s1 = expand_word(seed);
    let s2 = expand_word(s1);
    let s3 = expand_word(s2);
    State { s0: seed, s1, s2, s3 }
}

/// The state after one raw draw: Marsaglia's Xorshift128 step. The words
/// shift down one place and a fresh word, mixed from the old `s0` and `s3`,
/// becomes the new `s3`.
pub open spec fn next_state_spec(s: State) -> State {
    let t = s.s0 ^ (s.s0 << 11u32);
    let x = s.s3 ^ (s.s3 >> 19u32);
    State { s0: s.s1, s1: s.s2, s2: s.s3, s3: x ^ (t ^ (t >> 8u32)) }
}

/// The value of one raw draw from state `s`: the `s3` word of the successor
/// state.
pub open spec fn next_u32_spec(s: State) -> u32 {
    next_state_spec(s).s3
}

impl Crypto {
    /// Expands a 32-bit seed into a full generator state, using the linear
    /// recurrence of the MT19937 initializer (wrapping arithmetic).
    pub fn init_state(seed: u32) -> (s: State)
        ensures
            s == init_state_spec(seed),
    {
        let s0 = seed;
        let s1 = (((s0 as u64) * 0x6C078965 + 1) % 0x1_0000_0000) as u32;
        let s2 = (((s1 as u64) * 0x6C078965 + 1) % 0x1_0000_0000) as u32;
        let s3 = (((s2 as u64) * 0x6C078965 + 1) % 0x1_0000_0000) as u32;

        State { s0, s1, s2, s3 }
    }

    /// Advances the state by one raw draw of Marsaglia's Xorshift128
    /// algorithm and returns the drawn word.
    pub fn next_u32(state: &mut State) -> (r: u32)
        ensures
            *final(state) == next_state_spec(*old(state)),
            r == next_u32_spec(*old(state)),
    {
        let t = state.s0 ^ (state.s0 << 11u32);
        let x = state.s3 ^ (state.s3 >> 19u32);

        state.s0 = state.s1;
        state.s1 = state.s2;
        state.s2 = state.s3;

        state.s3 = x ^ (t ^ (t >> 8u32));
        state.s3
    }
}

} // verus!
