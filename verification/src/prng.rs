use vstd::prelude::*;

verus! {

// SplitMix64 (Steele, Lea & Flood; the `splitmix64.c` reference generator):
// the state advances by a fixed odd constant and the output is a bijective
// bit-mix of the new state.  All arithmetic is modulo 2^64.

pub const GOLDEN_GAMMA: u64 = 0x9E3779B97F4A7C15;
pub const MIX_MUL_1: u64 = 0xBF58476D1CE4E5B9;
pub const MIX_MUL_2: u64 = 0x94D049BB133111EB;

/// The state that follows `state` after one draw.
pub open spec fn spec_next_state(state: u64) -> u64 {
    state.wrapping_add(GOLDEN_GAMMA)
}

/// The output word produced from an (already advanced) state.
pub open spec fn spec_mix(z0: u64) -> u64 {
    let z1 = (z0 ^ (z0 >> 30)).wrapping_mul(MIX_MUL_1);
    let z2 = (z1 ^ (z1 >> 27)).wrapping_mul(MIX_MUL_2);
    z2 ^ (z2 >> 31)
}

/// The state after `draws` draws from a generator seeded with `seed`.
pub open spec fn spec_state_after(seed: u64, draws: nat) -> u64
    decreases draws,
{
    if draws == 0 {
        seed
    } else {
        spec_next_state(spec_state_after(seed, (draws - 1) as nat))
    }
}

/// The `k`-th word (counting from 0) drawn from a generator seeded with
/// `seed`.  This is a function of `seed` and `k` alone, which is what makes
/// dataset generation reproducible.
pub open spec fn spec_draw(seed: u64, k: nat) -> u64 {
    spec_mix(spec_state_after(seed, k + 1))
}

/// A deterministic pseudo-random generator (SplitMix64).
pub struct SplitMix64 {
    pub state: u64,
}

impl SplitMix64 {
    /// Seed the generator.
    pub fn new(seed: u64) -> (r: SplitMix64)
        ensures
            r.state == seed,
    {
        SplitMix64 { state: seed }
    }

    /// Draw the next 64-bit word.
    pub fn next_u64(&mut self) -> (r: u64)
        ensures
            final(self).state == spec_next_state(old(self).state),
            r == spec_mix(final(self).state),
    {
        self.state = self.state.wrapping_add(GOLDEN_GAMMA);
        let z0 = self.state;
        let z1 = (z0 ^ (z0 >> 30)).wrapping_mul(MIX_MUL_1);
        let z2 = (z1 ^ (z1 >> 27)).wrapping_mul(MIX_MUL_2);
        z2 ^ (z2 >> 31)
    }
}

} // verus!
