//! The capability contract a generator must satisfy to be shared through
//! the global slot: word production, buffer filling, and a fallible fill
//! that surfaces the generator's own transient failures.

use vstd::prelude::*;

verus! {

/// Failure value reported by a fallible fill when the underlying generator
/// cannot produce bytes (entropy exhaustion, hardware fault).
#[derive(Clone, Copy, Debug, PartialEq, Eq, Structural)]
pub struct RngError {}

/// Marker capability asserting cryptographic suitability. Implementing it is
/// a claim made by the generator's author; only types carrying it are
/// eligible for global binding.
pub trait CryptoRng {}

/// The generator capability. A generator is modelled as a deterministic
/// machine: each spec function below names the value the next call returns
/// and the state the generator is left in, and the executable methods are
/// bound to that model by their contracts.
///
/// Implementations additionally assert cryptographic suitability through
/// the [`CryptoRng`] marker.
pub trait Rng: CryptoRng + Sized {
    /// The word the next `next_u32` call returns.
    spec fn u32_val(&self) -> u32;

    /// The generator state after a `next_u32` call.
    spec fn u32_next(&self) -> Self;

    /// The word the next `next_u64` call returns.
    spec fn u64_val(&self) -> u64;

    /// The generator state after a `next_u64` call.
    spec fn u64_next(&self) -> Self;

    /// The `n` bytes the next fill of an `n`-byte buffer produces.
    spec fn fill_val(&self, n: nat) -> Seq<u8>;

    /// The generator state after filling an `n`-byte buffer.
    spec fn fill_next(&self, n: nat) -> Self;

    /// Produce the next 32-bit word.
    fn next_u32(&mut self) -> (r: u32)
        ensures
            r == old(self).u32_val(),
            *final(self) == old(self).u32_next(),
    ;

    /// Produce the next 64-bit word.
    fn next_u64(&mut self) -> (r: u64)
        ensures
            r == old(self).u64_val(),
            *final(self) == old(self).u64_next(),
    ;

    /// Overwrite every byte of `dest` with generator output; the buffer's
    /// length is preserved.
    fn fill_bytes(&mut self, dest: &mut Vec<u8>)
        ensures
            final(dest)@.len() == old(dest)@.len(),
            final(dest)@ == old(self).fill_val(old(dest)@.len() as nat),
            *final(self) == old(self).fill_next(old(dest)@.len() as nat),
    ;

    /// Fallibly overwrite every byte of `dest` with generator output.
    /// On success this behaves exactly like `fill_bytes`; on failure the
    /// buffer keeps its length but its contents and the generator state are
    /// implementation-defined.
    fn try_fill_bytes(&mut self, dest: &mut Vec<u8>) -> (r: Result<(), RngError>)
        ensures
            final(dest)@.len() == old(dest)@.len(),
            r is Ok ==> final(dest)@ == old(self).fill_val(old(dest)@.len() as nat)
                && *final(self) == old(self).fill_next(old(dest)@.len() as nat),
    ;
}

} // verus!
