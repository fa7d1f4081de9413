//! A small deterministic generator (the splitmix64 step function) used by
//! tests and wiring demonstrations. It carries the suitability marker only
//! so that it can be bound through the slot; it is not a source of
//! cryptographic strength and must not be used where one is needed.

use vstd::prelude::*;
use vstd::wrapping::u64_specs;

use crate::rng::CryptoRng;
use crate::rng::Rng;
use crate::rng::RngError;

verus! {

/// Additive constant of the underlying Weyl sequence.
pub const GOLDEN_GAMMA: u64 = 0x9E37_79B9_7F4A_7C15;

/// First multiplier of the output mixer.
pub const MIX_MUL_1: u64 = 0xBF58_476D_1CE4_E5B9;

/// Second multiplier of the output mixer.
pub const MIX_MUL_2: u64 = 0x94D0_49BB_1331_11EB;

/// The successor of a generator state: one step of the Weyl sequence.
pub open spec fn spec_advance(s: u64) -> u64 {
    u64_specs::wrapping_add(s, GOLDEN_GAMMA)
}

/// The output word derived from a state by the splitmix64 mixer.
pub open spec fn spec_mix(z: u64) -> u64 {
    let a = u64_specs::wrapping_mul(z ^ (z >> 30u64), MIX_MUL_1);
    let b = u64_specs::wrapping_mul(a ^ (a >> 27u64), MIX_MUL_2);
    b ^ (b >> 31u64)
}

/// The state reached from `s` after `n` steps of the Weyl sequence.
pub open spec fn spec_state_after(s: u64, n: nat) -> u64
    decreases n,
{
    if n == 0 {
        s
    } else {
        spec_advance(spec_state_after(s, (n - 1) as nat))
    }
}

/// The `n` bytes a fill produces from state `s`: each byte is the low byte
/// of the word mixed from one fresh step.
pub open spec fn spec_bytes_from(s: u64, n: nat) -> Seq<u8> {
    Seq::new(n, |i: int| spec_mix(spec_state_after(s, (i + 1) as nat)) as u8)
}

/// Deterministic generator: a Weyl sequence stepped by [`GOLDEN_GAMMA`]
/// whose state is passed through the splitmix64 output mixer.
pub struct SplitMix64 {
    state: u64,
}

/// Suitability marker, carried only so the demonstration generator can be
/// bound; see the module documentation.
impl CryptoRng for SplitMix64 {
}

impl SplitMix64 {
    /// The generator whose current state is `s`.
    pub closed spec fn spec_with_state(s: u64) -> SplitMix64 {
        SplitMix64 { state: s }
    }

    /// The current state word.
    pub closed spec fn spec_state(&self) -> u64 {
        self.state
    }

    /// The generator a given seed constructs.
    pub open spec fn spec_from_seed(seed: u64) -> SplitMix64 {
        Self::spec_with_state(seed)
    }

    /// Construct a generator from a seed; equal seeds give generators with
    /// equal output streams.
    pub fn from_seed(seed: u64) -> (r: Self)
        ensures
            r == Self::spec_from_seed(seed),
            r.spec_state() == seed,
    {
        SplitMix64 { state: seed }
    }
}

/// One application of the splitmix64 output mixer.
fn mix(z: u64) -> (r: u64)
    ensures
        r == spec_mix(z),
{
    let a = (z ^ (z >> 30u64)).wrapping_mul(MIX_MUL_1);
    let b = (a ^ (a >> 27u64)).wrapping_mul(MIX_MUL_2);
    b ^ (b >> 31u64)
}

impl Rng for SplitMix64 {
    open spec fn u32_val(&self) -> u32 {
        spec_mix(spec_advance(self.spec_state())) as u32
    }

    open spec fn u32_next(&self) -> Self {
        SplitMix64::spec_with_state(spec_advance(self.spec_state()))
    }

    open spec fn u64_val(&self) -> u64 {
        spec_mix(spec_advance(self.spec_state()))
    }

    open spec fn u64_next(&self) -> Self {
        SplitMix64::spec_with_state(spec_advance(self.spec_state()))
    }

    open spec fn fill_val(&self, n: nat) -> Seq<u8> {
        spec_bytes_from(self.spec_state(), n)
    }

    open spec fn fill_next(&self, n: nat) -> Self {
        SplitMix64::spec_with_state(spec_state_after(self.spec_state(), n))
    }

    fn next_u32(&mut self) -> (r: u32)
        ensures
            r == old(self).u32_val(),
            *final(self) == old(self).u32_next(),
    {
        self.state = self.state.wrapping_add(GOLDEN_GAMMA);
        let z = mix(self.state);
        #[verifier::truncate] (z as u32)
    }

    fn next_u64(&mut self) -> (r: u64)
        ensures
            r == old(self).u64_val(),
            *final(self) == old(self).u64_next(),
    {
        self.state = self.state.wrapping_add(GOLDEN_GAMMA);
        mix(self.state)
    }

    fn fill_bytes(&mut self, dest: &mut Vec<u8>)
        ensures
            final(dest)@.len() == old(dest)@.len(),
            final(dest)@ == old(self).fill_val(old(dest)@.len() as nat),
            *final(self) == old(self).fill_next(old(dest)@.len() as nat),
    {
        let n = dest.len();
        let ghost s0 = self.state;
        let mut out: Vec<u8> = Vec::new();
        let mut i: usize = 0;
        while i < n
            invariant
                i <= n,
                out@.len() == i as nat,
                self.state == spec_state_after(s0, i as nat),
                out@ == spec_bytes_from(s0, i as nat),
            decreases n - i,
        {
            self.state = self.state.wrapping_add(GOLDEN_GAMMA);
            let z = mix(self.state);
            out.push(#[verifier::truncate] (z as u8));
            i = i + 1;
            proof {
                assert(out@ =~= spec_bytes_from(s0, i as nat));
            }
        }
        *dest = out;
    }

    fn try_fill_bytes(&mut self, dest: &mut Vec<u8>) -> (r: Result<(), RngError>)
        ensures
            final(dest)@.len() == old(dest)@.len(),
            r is Ok ==> final(dest)@ == old(self).fill_val(old(dest)@.len() as nat)
                && *final(self) == old(self).fill_next(old(dest)@.len() as nat),
    {
        self.fill_bytes(dest);
        Ok(())
    }
}

} // verus!
