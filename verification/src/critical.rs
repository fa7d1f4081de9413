//! Trusted boundary for the critical-section strategy. Each function here
//! performs one slot operation inside `cortex_m::interrupt::free`, which
//! disables interrupts, runs the closure exactly once, restores the
//! previous interrupt state, and returns the closure's result — so each
//! contract below is the contract of the verified operation the closure
//! calls. The closures call only verified operations of this crate.
//!
//! This strategy is meaningful on single-core bare-metal targets only; on
//! hosted targets `cortex_m::interrupt::free` aborts, so hosted builds must
//! construct the slot with another strategy.

use vstd::prelude::*;

use crate::global::GlobalRng;
use crate::global::RngGuard;
use crate::rng::Rng;
use crate::rng::RngError;

verus! {

/// Relies on `cortex_m::interrupt::free`: runs the bind with interrupts
/// disabled and returns its guard.
#[verifier::external_body]
pub(crate) fn bind_in_critical_section<T: Rng>(s: &mut GlobalRng<T>, rng: T) -> (g: RngGuard)
    requires
        old(s).wf(),
        !(old(s).spec_strategy() is OsEntropy),
        old(s).spec_next() < u64::MAX,
    ensures
        final(s).wf(),
        *final(s) == old(s).after_bind(rng),
        g.id() == old(s).bind_id(),
{
    cortex_m::interrupt::free(move |_| s.bind_core(rng))
}

/// Relies on `cortex_m::interrupt::free`: runs the release with interrupts
/// disabled.
#[verifier::external_body]
pub(crate) fn release_in_critical_section<T: Rng>(s: &mut GlobalRng<T>, guard: RngGuard)
    requires
        old(s).wf(),
    ensures
        final(s).wf(),
        *final(s) == old(s).after_release(guard.id()),
{
    cortex_m::interrupt::free(move |_| s.release_core(guard))
}

/// Relies on `cortex_m::interrupt::free`: runs one delegated 32-bit read
/// with interrupts disabled and returns its word.
#[verifier::external_body]
pub(crate) fn next_u32_in_critical_section<T: Rng>(s: &mut GlobalRng<T>) -> (r: u32)
    requires
        old(s).wf(),
        old(s).spec_bound(),
    ensures
        final(s).wf(),
        r == old(s).spec_gen().u32_val(),
        *final(s) == old(s).after_step(old(s).spec_gen().u32_next()),
{
    cortex_m::interrupt::free(|_| s.read_u32_core())
}

/// Relies on `cortex_m::interrupt::free`: runs one delegated 64-bit read
/// with interrupts disabled and returns its word.
#[verifier::external_body]
pub(crate) fn next_u64_in_critical_section<T: Rng>(s: &mut GlobalRng<T>) -> (r: u64)
    requires
        old(s).wf(),
        old(s).spec_bound(),
    ensures
        final(s).wf(),
        r == old(s).spec_gen().u64_val(),
        *final(s) == old(s).after_step(old(s).spec_gen().u64_next()),
{
    cortex_m::interrupt::free(|_| s.read_u64_core())
}

/// Relies on `cortex_m::interrupt::free`: runs one delegated fill with
/// interrupts disabled.
#[verifier::external_body]
pub(crate) fn fill_bytes_in_critical_section<T: Rng>(s: &mut GlobalRng<T>, dest: &mut Vec<u8>)
    requires
        old(s).wf(),
        old(s).spec_bound(),
    ensures
        final(s).wf(),
        final(dest)@.len() == old(dest)@.len(),
        final(dest)@ == old(s).spec_gen().fill_val(old(dest)@.len() as nat),
        *final(s) == old(s).after_step(old(s).spec_gen().fill_next(old(dest)@.len() as nat)),
{
    cortex_m::interrupt::free(|_| s.fill_core(dest))
}

/// Relies on `cortex_m::interrupt::free`: runs one delegated fallible fill
/// with interrupts disabled and returns its outcome.
#[verifier::external_body]
pub(crate) fn try_fill_bytes_in_critical_section<T: Rng>(
    s: &mut GlobalRng<T>,
    dest: &mut Vec<u8>,
) -> (r: Result<(), RngError>)
    requires
        old(s).wf(),
        old(s).spec_bound(),
    ensures
        final(s).wf(),
        final(dest)@.len() == old(dest)@.len(),
        r is Ok ==> final(dest)@ == old(s).spec_gen().fill_val(old(dest)@.len() as nat)
            && *final(s) == old(s).after_step(
            old(s).spec_gen().fill_next(old(dest)@.len() as nat),
        ),
        r is Err ==> final(s).spec_bound() && final(s).spec_current() == old(s).spec_current()
            && final(s).spec_next() == old(s).spec_next() && final(s).spec_strategy() == old(
            s,
        ).spec_strategy(),
{
    cortex_m::interrupt::free(|_| s.try_fill_core(dest))
}

} // verus!
