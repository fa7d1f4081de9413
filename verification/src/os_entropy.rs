//! Trusted boundary to the platform entropy source. Every function here
//! forwards one call to `rand::rngs::OsRng`; nothing is promised of the
//! values it returns, since they depend on the platform source, not on the
//! arguments.

use vstd::prelude::*;

use rand::RngCore;

verus! {

/// The failure value `rand`'s fallible operations report; opaque here and
/// mapped to the library's own error by the caller.
#[verifier::external_type_specification]
#[verifier::external_body]
pub struct ExRandError(rand::Error);

/// Relies on `rand::rngs::OsRng::next_u32`: one 32-bit word from the
/// platform entropy source; nothing can be promised of its value. Aborts if
/// the platform source itself fails.
#[verifier::external_body]
pub(crate) fn os_next_u32() -> u32 {
    rand::rngs::OsRng.next_u32()
}

/// Relies on `rand::rngs::OsRng::next_u64`: one 64-bit word from the
/// platform entropy source; nothing can be promised of its value. Aborts if
/// the platform source itself fails.
#[verifier::external_body]
pub(crate) fn os_next_u64() -> u64 {
    rand::rngs::OsRng.next_u64()
}

/// Relies on `rand::rngs::OsRng::fill_bytes`: overwrites the buffer in
/// place, so its length is preserved; nothing can be promised of the bytes.
/// Aborts if the platform source itself fails.
#[verifier::external_body]
pub(crate) fn os_fill_bytes(dest: &mut Vec<u8>)
    ensures
        final(dest)@.len() == old(dest)@.len(),
{
    rand::rngs::OsRng.fill_bytes(dest.as_mut_slice())
}

/// Relies on `rand::rngs::OsRng::try_fill_bytes`: overwrites the buffer in
/// place, so its length is preserved, and reports the platform source's own
/// failure as a value instead of aborting.
#[verifier::external_body]
pub(crate) fn os_try_fill_bytes(dest: &mut Vec<u8>) -> (r: Result<(), rand::Error>)
    ensures
        final(dest)@.len() == old(dest)@.len(),
{
    rand::rngs::OsRng.try_fill_bytes(dest.as_mut_slice())
}

} // verus!
