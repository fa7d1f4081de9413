//! The global slot: storage for at most one bound generator, the scoped
//! bind/release protocol, and the facade operations that delegate to
//! whatever is currently bound.
//!
//! The slot is an explicit service object constructed once at startup and
//! shared by the rest of the program. The synchronization strategy is picked
//! when the object is constructed: under the host-mutex strategy the caller
//! keeps the object behind a host lock and every access holds that lock;
//! under the critical-section strategy each access runs with interrupts
//! disabled; under the OS-entropy strategy no binding exists and every call
//! is forwarded to the platform entropy source.

use vstd::prelude::*;
use vstd::pervasive::unreached;

use crate::rng::Rng;
use crate::rng::RngError;

verus! {

/// The synchronization strategy a slot was constructed with. Exactly one is
/// active per slot for its whole lifetime.
#[derive(Clone, Copy, Debug, PartialEq, Eq, Structural)]
pub enum Strategy {
    /// Hosted multi-threaded processes: the caller keeps the slot behind a
    /// mutual-exclusion lock and each operation is performed holding it.
    HostMutex,
    /// Single-core bare-metal targets: each operation runs with interrupts
    /// disabled for its duration.
    CriticalSection,
    /// Passthrough to the platform entropy source: no slot state exists and
    /// binding is never available.
    OsEntropy,
}

/// Scoped token returned by a successful bind. Releasing it through
/// [`GlobalRng::release`] clears the slot, provided the token still matches
/// the current binding; a token orphaned by a later bind is inert. The token
/// is move-only, so a binding can be released at most once through it.
pub struct RngGuard {
    token: u64,
}

impl RngGuard {
    /// The binding this guard was issued for.
    pub closed spec fn id(&self) -> u64 {
        self.token
    }
}

/// The global slot together with its strategy: holds at most one bound
/// generator and mediates every access to it.
pub struct GlobalRng<T> {
    strat: Strategy,
    slot: Option<T>,
    cur: u64,
    next: u64,
}

impl<T: Rng> GlobalRng<T> {
    /// The strategy this slot was constructed with.
    pub closed spec fn spec_strategy(&self) -> Strategy {
        self.strat
    }

    /// Whether a generator is currently bound.
    pub closed spec fn spec_bound(&self) -> bool {
        self.slot is Some
    }

    /// The currently bound generator.
    pub closed spec fn spec_gen(&self) -> T
        recommends
            self.spec_bound(),
    {
        self.slot->0
    }

    /// The id of the binding currently occupying the slot.
    pub closed spec fn spec_current(&self) -> u64 {
        self.cur
    }

    /// The id the next bind will be issued.
    pub closed spec fn spec_next(&self) -> u64 {
        self.next
    }

    /// Well-formedness: binding ids grow towards `spec_next`, and under the
    /// OS-entropy strategy no binding ever exists.
    pub open spec fn wf(&self) -> bool {
        &&& (self.spec_bound() ==> self.spec_current() < self.spec_next())
        &&& (self.spec_strategy() is OsEntropy ==> !self.spec_bound())
    }

    /// A freshly constructed slot: empty, no binding ever issued.
    pub closed spec fn spec_new(strategy: Strategy) -> GlobalRng<T> {
        GlobalRng { strat: strategy, slot: None, cur: 0, next: 1 }
    }

    /// The slot after a bind: the new generator occupies the slot and the
    /// bind is issued the id [`Self::bind_id`], orphaning any earlier guard.
    pub closed spec fn after_bind(self, g: T) -> GlobalRng<T> {
        GlobalRng { slot: Some(g), cur: self.next, next: (self.next + 1) as u64, ..self }
    }

    /// The id a bind performed on this slot is issued.
    pub open spec fn bind_id(&self) -> u64 {
        self.spec_next()
    }

    /// The slot after releasing the guard with id `id`: cleared if that
    /// guard's binding still occupies the slot, untouched otherwise.
    pub closed spec fn after_release(self, id: u64) -> GlobalRng<T> {
        if self.slot is Some && self.cur == id {
            GlobalRng { slot: None, ..self }
        } else {
            self
        }
    }

    /// The slot after the bound generator advanced to state `g`.
    pub closed spec fn after_step(self, g: T) -> GlobalRng<T> {
        GlobalRng { slot: Some(g), ..self }
    }

    /// Construct the slot for the host-mutex strategy: empty, nothing bound.
    /// Constructing it never touches any binding state elsewhere; each slot
    /// is the one its program shares.
    pub fn get() -> (s: Self)
        ensures
            s == Self::spec_new(Strategy::HostMutex),
            s.wf(),
            !s.spec_bound(),
            s.spec_strategy() is HostMutex,
            s.spec_current() == 0,
            s.spec_next() == 1,
    {
        Self::with_strategy(Strategy::HostMutex)
    }

    /// Construct the slot for a chosen strategy: empty, nothing bound.
    pub fn with_strategy(strategy: Strategy) -> (s: Self)
        ensures
            s == Self::spec_new(strategy),
            s.wf(),
            !s.spec_bound(),
            s.spec_strategy() == strategy,
            s.spec_current() == 0,
            s.spec_next() == 1,
    {
        GlobalRng { strat: strategy, slot: None, cur: 0, next: 1 }
    }

    /// Whether a generator is currently bound.
    pub fn is_bound(&self) -> (r: bool)
        ensures
            r == self.spec_bound(),
    {
        self.slot.is_some()
    }

    /// The strategy this slot was constructed with.
    pub fn strategy(&self) -> (r: Strategy)
        ensures
            r == self.spec_strategy(),
    {
        self.strat
    }

    /// Whether a bind may be performed on this slot: never under the
    /// OS-entropy strategy, and only while binding ids remain.
    pub fn can_bind(&self) -> (r: bool)
        ensures
            r == (!(self.spec_strategy() is OsEntropy) && self.spec_next() < u64::MAX),
    {
        let os: bool = matches!(self.strat, Strategy::OsEntropy);
        !os && self.next < u64::MAX
    }

    /// Bind a generator: ownership moves into the slot and a guard for the
    /// new binding is returned. A binding already present is replaced and
    /// its guard becomes inert. Binding is a programming error under the
    /// OS-entropy strategy — the contract excludes it, and an unchecked
    /// caller aborts.
    pub fn set(&mut self, rng: T) -> (g: RngGuard)
        requires
            old(self).wf(),
            !(old(self).spec_strategy() is OsEntropy),
            old(self).spec_next() < u64::MAX,
        ensures
            final(self).wf(),
            *final(self) == old(self).after_bind(rng),
            g.id() == old(self).bind_id(),
            final(self).spec_bound(),
            final(self).spec_gen() == rng,
            final(self).spec_current() == g.id(),
            final(self).spec_strategy() == old(self).spec_strategy(),
            final(self).spec_next() == old(self).spec_next() + 1,
    {
        match self.strat {
            Strategy::HostMutex => self.bind_core(rng),
            Strategy::CriticalSection => crate::critical::bind_in_critical_section(self, rng),
            Strategy::OsEntropy => unreached(),
        }
    }

    /// Release a binding through its guard: clears the slot if the guard's
    /// binding still occupies it, and is a no-op for an orphaned guard. The
    /// guard is consumed, so a binding is released at most once through it.
    pub fn release(&mut self, guard: RngGuard)
        requires
            old(self).wf(),
        ensures
            final(self).wf(),
            *final(self) == old(self).after_release(guard.id()),
            old(self).spec_bound() && old(self).spec_current() == guard.id()
                ==> !final(self).spec_bound(),
            !(old(self).spec_bound() && old(self).spec_current() == guard.id())
                ==> *final(self) == *old(self),
            final(self).spec_strategy() == old(self).spec_strategy(),
            final(self).spec_current() == old(self).spec_current(),
            final(self).spec_next() == old(self).spec_next(),
    {
        match self.strat {
            Strategy::CriticalSection => crate::critical::release_in_critical_section(
                self,
                guard,
            ),
            _ => self.release_core(guard),
        }
    }

    /// Produce the next 32-bit word: delegated to the bound generator, or to
    /// the platform entropy source under the OS-entropy strategy. Calling
    /// with nothing bound is a programming error — the contract excludes it,
    /// and an unchecked caller aborts.
    pub fn next_u32(&mut self) -> (r: u32)
        requires
            old(self).wf(),
            old(self).spec_strategy() is OsEntropy || old(self).spec_bound(),
        ensures
            final(self).wf(),
            final(self).spec_strategy() == old(self).spec_strategy(),
            final(self).spec_bound() == old(self).spec_bound(),
            final(self).spec_current() == old(self).spec_current(),
            final(self).spec_next() == old(self).spec_next(),
            old(self).spec_strategy() is OsEntropy ==> *final(self) == *old(self),
            !(old(self).spec_strategy() is OsEntropy) ==> r == old(self).spec_gen().u32_val()
                && *final(self) == old(self).after_step(old(self).spec_gen().u32_next())
                && final(self).spec_gen() == old(self).spec_gen().u32_next(),
    {
        match self.strat {
            Strategy::HostMutex => self.read_u32_core(),
            Strategy::CriticalSection => crate::critical::next_u32_in_critical_section(self),
            Strategy::OsEntropy => crate::os_entropy::os_next_u32(),
        }
    }

    /// Produce the next 64-bit word; same protocol as [`Self::next_u32`].
    pub fn next_u64(&mut self) -> (r: u64)
        requires
            old(self).wf(),
            old(self).spec_strategy() is OsEntropy || old(self).spec_bound(),
        ensures
            final(self).wf(),
            final(self).spec_strategy() == old(self).spec_strategy(),
            final(self).spec_bound() == old(self).spec_bound(),
            final(self).spec_current() == old(self).spec_current(),
            final(self).spec_next() == old(self).spec_next(),
            old(self).spec_strategy() is OsEntropy ==> *final(self) == *old(self),
            !(old(self).spec_strategy() is OsEntropy) ==> r == old(self).spec_gen().u64_val()
                && *final(self) == old(self).after_step(old(self).spec_gen().u64_next())
                && final(self).spec_gen() == old(self).spec_gen().u64_next(),
    {
        match self.strat {
            Strategy::HostMutex => self.read_u64_core(),
            Strategy::CriticalSection => crate::critical::next_u64_in_critical_section(self),
            Strategy::OsEntropy => crate::os_entropy::os_next_u64(),
        }
    }

    /// Overwrite every byte of `dest`; same protocol as [`Self::next_u32`].
    /// The buffer keeps its length.
    pub fn fill_bytes(&mut self, dest: &mut Vec<u8>)
        requires
            old(self).wf(),
            old(self).spec_strategy() is OsEntropy || old(self).spec_bound(),
        ensures
            final(self).wf(),
            final(self).spec_strategy() == old(self).spec_strategy(),
            final(self).spec_bound() == old(self).spec_bound(),
            final(self).spec_current() == old(self).spec_current(),
            final(self).spec_next() == old(self).spec_next(),
            final(dest)@.len() == old(dest)@.len(),
            old(self).spec_strategy() is OsEntropy ==> *final(self) == *old(self),
            !(old(self).spec_strategy() is OsEntropy) ==> final(dest)@ == old(self).spec_gen()
                .fill_val(old(dest)@.len() as nat) && *final(self) == old(self).after_step(
                old(self).spec_gen().fill_next(old(dest)@.len() as nat),
            ) && final(self).spec_gen() == old(self).spec_gen().fill_next(old(dest)@.len() as nat),
    {
        match self.strat {
            Strategy::HostMutex => self.fill_core(dest),
            Strategy::CriticalSection => crate::critical::fill_bytes_in_critical_section(
                self,
                dest,
            ),
            Strategy::OsEntropy => crate::os_entropy::os_fill_bytes(dest),
        }
    }

    /// Fallibly overwrite every byte of `dest`. A missing binding still
    /// aborts; only the bound generator's own transient failure is reported
    /// as a value, with the binding left in place.
    pub fn try_fill_bytes(&mut self, dest: &mut Vec<u8>) -> (r: Result<(), RngError>)
        requires
            old(self).wf(),
            old(self).spec_strategy() is OsEntropy || old(self).spec_bound(),
        ensures
            final(self).wf(),
            final(self).spec_strategy() == old(self).spec_strategy(),
            final(self).spec_bound() == old(self).spec_bound(),
            final(self).spec_current() == old(self).spec_current(),
            final(self).spec_next() == old(self).spec_next(),
            final(dest)@.len() == old(dest)@.len(),
            old(self).spec_strategy() is OsEntropy ==> *final(self) == *old(self),
            !(old(self).spec_strategy() is OsEntropy) && r is Ok ==> final(dest)@ == old(self)
                .spec_gen().fill_val(old(dest)@.len() as nat) && *final(self) == old(self)
                .after_step(old(self).spec_gen().fill_next(old(dest)@.len() as nat))
                && final(self).spec_gen() == old(self).spec_gen().fill_next(old(dest)@.len() as nat),
            !(old(self).spec_strategy() is OsEntropy) && r is Err ==> final(self).spec_bound()
                && final(self).spec_current() == old(self).spec_current()
                && final(self).spec_next() == old(self).spec_next()
                && final(self).spec_strategy() == old(self).spec_strategy(),
    {
        match self.strat {
            Strategy::HostMutex => self.try_fill_core(dest),
            Strategy::CriticalSection => crate::critical::try_fill_bytes_in_critical_section(
                self,
                dest,
            ),
            Strategy::OsEntropy => match crate::os_entropy::os_try_fill_bytes(dest) {
                Ok(()) => Ok(()),
                Err(_) => Err(RngError {}),
            },
        }
    }

    /// Install a generator and issue the guard for the new binding.
    pub(crate) fn bind_core(&mut self, rng: T) -> (g: RngGuard)
        requires
            old(self).wf(),
            !(old(self).spec_strategy() is OsEntropy),
            old(self).spec_next() < u64::MAX,
        ensures
            final(self).wf(),
            *final(self) == old(self).after_bind(rng),
            g.id() == old(self).bind_id(),
    {
        let id: u64 = self.next;
        self.next = self.next + 1;
        self.slot = Some(rng);
        self.cur = id;
        RngGuard { token: id }
    }

    /// Clear the slot if the guard's binding still occupies it.
    pub(crate) fn release_core(&mut self, guard: RngGuard)
        requires
            old(self).wf(),
        ensures
            final(self).wf(),
            *final(self) == old(self).after_release(guard.id()),
    {
        if self.slot.is_some() && self.cur == guard.token {
            self.slot = None;
        }
    }

    /// Delegate one 32-bit read to the bound generator.
    pub(crate) fn read_u32_core(&mut self) -> (r: u32)
        requires
            old(self).wf(),
            old(self).spec_bound(),
        ensures
            final(self).wf(),
            r == old(self).spec_gen().u32_val(),
            *final(self) == old(self).after_step(old(self).spec_gen().u32_next()),
    {
        match &mut self.slot {
            Some(g) => g.next_u32(),
            None => unreached(),
        }
    }

    /// Delegate one 64-bit read to the bound generator.
    pub(crate) fn read_u64_core(&mut self) -> (r: u64)
        requires
            old(self).wf(),
            old(self).spec_bound(),
        ensures
            final(self).wf(),
            r == old(self).spec_gen().u64_val(),
            *final(self) == old(self).after_step(old(self).spec_gen().u64_next()),
    {
        match &mut self.slot {
            Some(g) => g.next_u64(),
            None => unreached(),
        }
    }

    /// Delegate one fill to the bound generator.
    pub(crate) fn fill_core(&mut self, dest: &mut Vec<u8>)
        requires
            old(self).wf(),
            old(self).spec_bound(),
        ensures
            final(self).wf(),
            final(dest)@.len() == old(dest)@.len(),
            final(dest)@ == old(self).spec_gen().fill_val(old(dest)@.len() as nat),
            *final(self) == old(self).after_step(
                old(self).spec_gen().fill_next(old(dest)@.len() as nat),
            ),
    {
        match &mut self.slot {
            Some(g) => g.fill_bytes(dest),
            None => unreached(),
        }
    }

    /// Delegate one fallible fill to the bound generator.
    pub(crate) fn try_fill_core(&mut self, dest: &mut Vec<u8>) -> (r: Result<(), RngError>)
        requires
            old(self).wf(),
            old(self).spec_bound(),
        ensures
            final(self).wf(),
            final(dest)@.len() == old(dest)@.len(),
            r is Ok ==> final(dest)@ == old(self).spec_gen().fill_val(old(dest)@.len() as nat)
                && *final(self) == old(self).after_step(
                old(self).spec_gen().fill_next(old(dest)@.len() as nat),
            ),
            r is Err ==> final(self).spec_bound() && final(self).spec_current() == old(
                self,
            ).spec_current() && final(self).spec_next() == old(self).spec_next()
                && final(self).spec_strategy() == old(self).spec_strategy(),
    {
        match &mut self.slot {
            Some(g) => g.try_fill_bytes(dest),
            None => unreached(),
        }
    }
}

/// One call of a delegated facade operation, at the level of the model:
/// a 32-bit read, a 64-bit read, or a fill of a buffer of `len` bytes.
pub enum FacadeCall {
    Word32,
    Word64,
    Fill { len: nat },
}

/// What one call returns, at the level of the model.
pub enum FacadeOutput {
    Word32(u32),
    Word64(u64),
    Bytes(Seq<u8>),
}

/// The output of one direct call on a generator, and the generator after it.
pub open spec fn direct_step<T: Rng>(g: T, call: FacadeCall) -> (FacadeOutput, T) {
    match call {
        FacadeCall::Word32 => (FacadeOutput::Word32(g.u32_val()), g.u32_next()),
        FacadeCall::Word64 => (FacadeOutput::Word64(g.u64_val()), g.u64_next()),
        FacadeCall::Fill { len } => (FacadeOutput::Bytes(g.fill_val(len)), g.fill_next(len)),
    }
}

/// The outputs a generator produces when a sequence of calls is issued to
/// it directly.
pub open spec fn direct_outputs<T: Rng>(g: T, calls: Seq<FacadeCall>) -> Seq<FacadeOutput>
    decreases calls.len(),
{
    if calls.len() == 0 {
        Seq::empty()
    } else {
        let (out, g2) = direct_step(g, calls.first());
        seq![out] + direct_outputs(g2, calls.drop_first())
    }
}

/// The outputs the same sequence of calls produces through the facade,
/// following the slot through the per-call transitions that
/// [`GlobalRng::next_u32`], [`GlobalRng::next_u64`] and
/// [`GlobalRng::fill_bytes`] ensure.
pub open spec fn facade_outputs<T: Rng>(s: GlobalRng<T>, calls: Seq<FacadeCall>) -> Seq<
    FacadeOutput,
>
    decreases calls.len(),
{
    if calls.len() == 0 || !s.spec_bound() {
        Seq::empty()
    } else {
        let (out, g2) = direct_step(s.spec_gen(), calls.first());
        seq![out] + facade_outputs(s.after_step(g2), calls.drop_first())
    }
}

/// Pure delegation: while a generator is bound, any sequence of 32-bit
/// reads, 64-bit reads and fills through the facade yields exactly the
/// outputs the bound generator yields when the same calls are issued to it
/// directly — no reordering, no buffering.
pub proof fn lemma_pure_delegation<T: Rng>(s: GlobalRng<T>, calls: Seq<FacadeCall>)
    requires
        s.spec_bound(),
    ensures
        facade_outputs(s, calls) == direct_outputs(s.spec_gen(), calls),
    decreases calls.len(),
{
    if calls.len() > 0 {
        let (out, g2) = direct_step(s.spec_gen(), calls.first());
        let s2 = s.after_step(g2);
        assert(s2.spec_bound());
        assert(s2.spec_gen() == g2);
        lemma_pure_delegation(s2, calls.drop_first());
    }
}

/// Releasing the current binding leaves nothing bound, however many reads
/// were served before: every further facade read is excluded by contract
/// until a new bind occurs.
pub proof fn lemma_release_blocks<T: Rng>(s: GlobalRng<T>, id: u64)
    requires
        s.wf(),
        s.spec_bound(),
        s.spec_current() == id,
    ensures
        !s.after_release(id).spec_bound(),
        s.after_release(id).wf(),
{
}

/// A guard orphaned by a later bind is inert: releasing it leaves the slot
/// exactly as it was.
pub proof fn lemma_orphaned_guard_inert<T: Rng>(s: GlobalRng<T>, id: u64)
    requires
        s.spec_bound(),
        id != s.spec_current(),
    ensures
        s.after_release(id) == s,
{
}

/// Rebinding is independent of any earlier binding: after a bind of `g2`,
/// whatever occupied the slot before and whatever was drawn from it, the
/// facade yields exactly `g2`'s direct outputs.
pub proof fn lemma_rebind_independent<T: Rng>(s: GlobalRng<T>, g2: T, calls: Seq<FacadeCall>)
    ensures
        facade_outputs(s.after_bind(g2), calls) == direct_outputs(g2, calls),
{
    let s2 = s.after_bind(g2);
    assert(s2.spec_bound());
    assert(s2.spec_gen() == g2);
    lemma_pure_delegation(s2, calls);
}

/// Under the OS-entropy strategy no slot state is observable: a well-formed
/// slot built with that strategy never holds a binding, and bind itself is
/// excluded by contract.
pub proof fn lemma_os_entropy_never_bound<T: Rng>(s: GlobalRng<T>)
    requires
        s.wf(),
        s.spec_strategy() is OsEntropy,
    ensures
        !s.spec_bound(),
{
}

} // verus!
