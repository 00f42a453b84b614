//! The random stream that drives sampling, mutation and selection.
//!
//! Reproducibility of a whole run depends on the random source, so the
//! stream is an explicit value with a fully specified transition function (a
//! SplitMix64 generator): every draw and the successor state are pinned in
//! the contracts, which is what makes the engine's determinism law provable.
//! Fresh entropy for a non-reproducible run comes from the operating system
//! through `rand`, behind a trusted wrapper.

use vstd::prelude::*;
use rand::Rng;

verus! {

/// The SplitMix64 state transition: one additive step of the Weyl sequence.
pub open spec fn spec_stream_next_state(s: u64) -> u64 {
    s.wrapping_add(0x9E37_79B9_7F4A_7C15)
}

/// The SplitMix64 output function on the advanced state: two
/// xor-shift-multiply rounds and a final xor-shift.
pub open spec fn spec_stream_output(s: u64) -> u64 {
    let z0 = spec_stream_next_state(s);
    let z1 = (z0 ^ (z0 / 0x4000_0000)).wrapping_mul(0xBF58_476D_1CE4_E5B9);
    let z2 = (z1 ^ (z1 / 0x800_0000)).wrapping_mul(0x94D0_49BB_1331_11EB);
    z2 ^ (z2 / 0x8000_0000)
}

/// A draw reduced to the range `[lo, hi)` by remainder.
pub open spec fn spec_stream_range(s: u64, lo: u64, hi: u64) -> u64 {
    (lo + spec_stream_output(s) % ((hi - lo) as u64)) as u64
}

/// A deterministic pseudo-random stream of 64-bit values.
#[derive(Clone, Copy, PartialEq, Eq, Structural, Debug)]
pub struct RandomStream {
    /// The current generator state.
    pub state: u64,
}

impl RandomStream {
    /// A stream starting from the given seed.
    pub fn from_seed(seed: u64) -> (r: RandomStream)
        ensures
            r.state == seed,
    {
        RandomStream { state: seed }
    }

    /// A stream seeded from operating-system entropy; nothing is promised
    /// of the seed.
    pub fn from_entropy() -> (r: RandomStream) {
        RandomStream { state: entropy_u64() }
    }

    /// The next 64-bit draw; state and output follow the stream functions.
    pub fn next_u64(&mut self) -> (r: u64)
        ensures
            final(self).state == spec_stream_next_state(old(self).state),
            r == spec_stream_output(old(self).state),
    {
        self.state = self.state.wrapping_add(0x9E37_79B9_7F4A_7C15);
        let z0: u64 = self.state;
        let z1: u64 = (z0 ^ (z0 / 0x4000_0000)).wrapping_mul(0xBF58_476D_1CE4_E5B9);
        let z2: u64 = (z1 ^ (z1 / 0x800_0000)).wrapping_mul(0x94D0_49BB_1331_11EB);
        z2 ^ (z2 / 0x8000_0000)
    }

    /// A draw uniform over `[lo, hi)` up to the remainder reduction.
    pub fn gen_range(&mut self, lo: u64, hi: u64) -> (r: u64)
        requires
            lo < hi,
        ensures
            final(self).state == spec_stream_next_state(old(self).state),
            r == spec_stream_range(old(self).state, lo, hi),
            lo <= r < hi,
    {
        let d: u64 = self.next_u64();
        lo + d % (hi - lo)
    }
}

/// Relies on `rand::rngs::ThreadRng` via `rand::thread_rng` and
/// `rand::Rng::gen`: yields one 64-bit value from the thread-local
/// generator; nothing is assumed about which.
#[verifier::external_body]
fn entropy_u64() -> u64 {
    rand::thread_rng().gen()
}

} // verus!
