//! The mutex-protected-page barrier: a process-wide barrier built from page
//! protection transitions.
//!
//! One anonymous page is mapped with no access permissions, pinned in physical
//! memory, and guarded by a non-reentrant mutex. A heavy barrier then runs one
//! cycle, fully serialized under the mutex: raise the page's protection to
//! read+write, write to the page so it is dirty, and drop the protection back
//! to none. Each protection transition forces the kernel to invalidate the
//! page's translation entries on every processor that might cache them, which
//! synchronizes with every running thread — exactly what a heavy barrier needs.
//!
//! The mapping and the protection calls themselves are kernel work the
//! platform layer performs; [`PageBarrier`] is the verified state machine it
//! drives, one step per kernel result. The machine pins the order of the
//! steps, judges each result (any mid-cycle failure is fatal, never soft), and
//! its invariant guarantees that every completed cycle leaves the page with no
//! access permissions again.

use vstd::prelude::*;
use crate::fatal::Fatal;

verus! {

/// The instruction-set families on which a protection transition is
/// documented to force a mandatory, synchronous, cross-processor TLB
/// shootdown. Only there may the page trick stand in for a barrier.
#[allow(non_camel_case_types)]
#[derive(Clone, Copy, PartialEq, Eq, Structural, Debug)]
pub enum IsaFamily {
    /// 32-bit x86.
    X86,
    /// 64-bit x86.
    X86_64,
    /// Any other family: the shootdown guarantee is not documented, so the
    /// trick must not be relied on.
    Other,
}

/// The families the page trick is restricted to.
pub open spec fn spec_page_trick_supported(family: IsaFamily) -> bool {
    family == IsaFamily::X86 || family == IsaFamily::X86_64
}

/// Returns `true` when the page-protection trick is supported on the given
/// processor family.
pub fn is_supported(family: IsaFamily) -> (supported: bool)
    ensures
        supported == spec_page_trick_supported(family),
{
    match family {
        IsaFamily::X86 => true,
        IsaFamily::X86_64 => true,
        IsaFamily::Other => false,
    }
}

/// The shared page's access protection: it is only ever none or read+write.
#[derive(Clone, Copy, PartialEq, Eq, Structural, Debug)]
pub enum Protection {
    /// No access: the page's resting state, before and after every cycle.
    NoAccess,
    /// Read and write access: held only mid-cycle, between the two
    /// transitions.
    ReadWrite,
}

/// Where in the barrier cycle the page stands. Every phase but [`Phase::Idle`]
/// is reached and left with the page mutex held.
#[derive(Clone, Copy, PartialEq, Eq, Structural, Debug)]
pub enum Phase {
    /// At rest: mutex free, protection none.
    Idle,
    /// The mutex was acquired; the cycle may begin.
    Locked,
    /// Protection was raised to read+write; the dirtying write is owed.
    Writable,
    /// The page was written, so the coming transition cannot be optimized
    /// away on the grounds that the page was never touched.
    Dirty,
    /// Protection was dropped back to none; only the mutex release is owed.
    Cleared,
}

/// `w` plus one, wrapping as the page word's atomic increment does.
pub open spec fn wrap_inc(w: u64) -> u64 {
    if w == u64::MAX {
        0
    } else {
        (w + 1) as u64
    }
}

/// The mathematical state of the shared page: what [`PageBarrier`] looks like
/// in contracts.
pub struct PageModel {
    /// Where in the cycle the page stands.
    pub phase: Phase,
    /// The page's current access protection.
    pub protection: Protection,
    /// How many dirtying writes the page has absorbed, modulo the word size.
    pub writes: u64,
    /// The size of the mapped page, in bytes.
    pub page_size: u64,
}

impl PageModel {
    /// Well-formedness: the phase determines the protection — read+write
    /// exactly between the two transitions, none everywhere else — and the
    /// page has a size. Established by initialization, preserved by every
    /// step.
    pub open spec fn inv(self) -> bool {
        &&& match self.phase {
            Phase::Idle => self.protection == Protection::NoAccess,
            Phase::Locked => self.protection == Protection::NoAccess,
            Phase::Writable => self.protection == Protection::ReadWrite,
            Phase::Dirty => self.protection == Protection::ReadWrite,
            Phase::Cleared => self.protection == Protection::NoAccess,
        }
        &&& self.page_size > 0
    }

    /// The state after the mutex was acquired.
    pub open spec fn after_lock(self) -> PageModel {
        PageModel { phase: Phase::Locked, ..self }
    }

    /// The state after protection was raised to read+write.
    pub open spec fn after_raise(self) -> PageModel {
        PageModel { phase: Phase::Writable, protection: Protection::ReadWrite, ..self }
    }

    /// The state after the dirtying write.
    pub open spec fn after_dirty(self) -> PageModel {
        PageModel { phase: Phase::Dirty, writes: wrap_inc(self.writes), ..self }
    }

    /// The state after protection was dropped back to none.
    pub open spec fn after_clear(self) -> PageModel {
        PageModel { phase: Phase::Cleared, protection: Protection::NoAccess, ..self }
    }

    /// The state after the mutex was released: at rest again.
    pub open spec fn after_release(self) -> PageModel {
        PageModel { phase: Phase::Idle, ..self }
    }
}

/// The verified model of the shared barrier page: one value per process,
/// created by [`PageBarrier::initialize`] and advanced in lock step with the
/// kernel calls the platform layer makes.
pub struct PageBarrier {
    phase: Phase,
    protection: Protection,
    writes: u64,
    page_size: u64,
}

impl View for PageBarrier {
    type V = PageModel;

    closed spec fn view(&self) -> PageModel {
        PageModel {
            phase: self.phase,
            protection: self.protection,
            writes: self.writes,
            page_size: self.page_size,
        }
    }
}

impl PageBarrier {
    /// Judges the one-time setup and builds the model of the fresh page.
    ///
    /// The platform layer determines the page size, maps one anonymous private
    /// page with no access permissions, pins it in physical memory so the
    /// later protection flips cannot be satisfied on an evicted page, and
    /// constructs the non-reentrant mutex; it then hands over the reported
    /// page size, the mapped address (`None` where the mapping call failed),
    /// and the four mutex-construction return codes. Setup succeeds exactly
    /// when the size is positive, the mapping succeeded at a page-aligned
    /// address, and every mutex call returned zero; any other outcome is
    /// [`Fatal::PageSetup`] — there is no degraded mode once this strategy was
    /// selected.
    pub fn initialize(
        page_size_ret: i64,
        map_addr: Option<u64>,
        mutexattr_init_ret: i32,
        mutex_settype_ret: i32,
        mutex_init_ret: i32,
        mutexattr_destroy_ret: i32,
    ) -> (r: Result<PageBarrier, Fatal>)
        ensures
            r is Ok <==> ({
                &&& page_size_ret > 0
                &&& map_addr matches Some(addr) && addr % (page_size_ret as u64) == 0
                &&& mutexattr_init_ret == 0
                &&& mutex_settype_ret == 0
                &&& mutex_init_ret == 0
                &&& mutexattr_destroy_ret == 0
            }),
            r matches Ok(b) ==> b@ == (PageModel {
                phase: Phase::Idle,
                protection: Protection::NoAccess,
                writes: 0,
                page_size: page_size_ret as u64,
            }) && b@.inv(),
            r is Err ==> r == Err::<PageBarrier, Fatal>(Fatal::PageSetup),
    {
        if page_size_ret <= 0 {
            return Err(Fatal::PageSetup);
        }
        let page_size: u64 = page_size_ret as u64;
        let addr: u64 = match map_addr {
            Some(a) => a,
            None => {
                return Err(Fatal::PageSetup);
            },
        };
        if addr % page_size != 0 {
            return Err(Fatal::PageSetup);
        }
        if mutexattr_init_ret != 0 || mutex_settype_ret != 0 || mutex_init_ret != 0
            || mutexattr_destroy_ret != 0 {
            return Err(Fatal::PageSetup);
        }
        Ok(
            PageBarrier {
                phase: Phase::Idle,
                protection: Protection::NoAccess,
                writes: 0,
                page_size,
            },
        )
    }

    /// Step one of a cycle: the mutex acquisition returned `ret`.
    ///
    /// Only one thread may run the cycle at a time — the correctness argument
    /// needs a single global protection transition to be observed, not an
    /// overlapping pair — so the cycle begins by taking the mutex. A nonzero
    /// return code is [`Fatal::PageLock`] and the model does not advance.
    pub fn lock_acquired(&mut self, ret: i32) -> (r: Result<(), Fatal>)
        requires
            old(self)@.inv(),
            old(self)@.phase == Phase::Idle,
        ensures
            final(self)@.inv(),
            ret == 0 ==> r is Ok && final(self)@ == old(self)@.after_lock(),
            ret != 0 ==> r == Err::<(), Fatal>(Fatal::PageLock) && final(self)@ == old(self)@,
    {
        if ret != 0 {
            return Err(Fatal::PageLock);
        }
        self.phase = Phase::Locked;
        Ok(())
    }

    /// Step two: the transition of the page's protection from none to
    /// read+write returned `ret`.
    ///
    /// A nonzero return code is [`Fatal::PageProtection`]: a partially applied
    /// transition could desynchronize threads already relying on the barrier,
    /// so the process must fail fast rather than fail soft.
    pub fn protection_raised(&mut self, ret: i32) -> (r: Result<(), Fatal>)
        requires
            old(self)@.inv(),
            old(self)@.phase == Phase::Locked,
        ensures
            final(self)@.inv(),
            ret == 0 ==> r is Ok && final(self)@ == old(self)@.after_raise(),
            ret != 0 ==> r == Err::<(), Fatal>(Fatal::PageProtection) && final(self)@ == old(
                self,
            )@,
    {
        if ret != 0 {
            return Err(Fatal::PageProtection);
        }
        self.phase = Phase::Writable;
        self.protection = Protection::ReadWrite;
        Ok(())
    }

    /// Step three: the page was written (an atomic increment of its first
    /// word).
    ///
    /// The write marks the page dirty before the protection drops again, so
    /// the kernel cannot skip the global TLB flush on the grounds that the
    /// page was never touched. A plain store cannot fail, so no return code is
    /// judged.
    pub fn page_dirtied(&mut self)
        requires
            old(self)@.inv(),
            old(self)@.phase == Phase::Writable,
        ensures
            final(self)@.inv(),
            final(self)@ == old(self)@.after_dirty(),
    {
        self.phase = Phase::Dirty;
        self.writes = if self.writes == u64::MAX {
            0
        } else {
            self.writes + 1
        };
    }

    /// Step four: the transition of the page's protection from read+write
    /// back to none returned `ret`.
    ///
    /// This is the transition that forces every processor holding a stale
    /// translation of the page to synchronize. A nonzero return code is
    /// [`Fatal::PageProtection`], as in step two.
    pub fn protection_cleared(&mut self, ret: i32) -> (r: Result<(), Fatal>)
        requires
            old(self)@.inv(),
            old(self)@.phase == Phase::Dirty,
        ensures
            final(self)@.inv(),
            ret == 0 ==> r is Ok && final(self)@ == old(self)@.after_clear(),
            ret != 0 ==> r == Err::<(), Fatal>(Fatal::PageProtection) && final(self)@ == old(
                self,
            )@,
    {
        if ret != 0 {
            return Err(Fatal::PageProtection);
        }
        self.phase = Phase::Cleared;
        self.protection = Protection::NoAccess;
        Ok(())
    }

    /// Step five: the mutex release returned `ret`. On success the cycle is
    /// complete and the page is at rest — no access permissions — again.
    pub fn lock_released(&mut self, ret: i32) -> (r: Result<(), Fatal>)
        requires
            old(self)@.inv(),
            old(self)@.phase == Phase::Cleared,
        ensures
            final(self)@.inv(),
            ret == 0 ==> r is Ok && final(self)@ == old(self)@.after_release(),
            ret != 0 ==> r == Err::<(), Fatal>(Fatal::PageLock) && final(self)@ == old(self)@,
    {
        if ret != 0 {
            return Err(Fatal::PageLock);
        }
        self.phase = Phase::Idle;
        Ok(())
    }

    /// Where in the cycle the page stands.
    pub fn phase(&self) -> (p: Phase)
        ensures
            p == self@.phase,
    {
        self.phase
    }

    /// The page's current access protection: the probe a test checks after
    /// each cycle.
    pub fn protection(&self) -> (p: Protection)
        ensures
            p == self@.protection,
    {
        self.protection
    }

    /// How many dirtying writes the page has absorbed.
    pub fn writes(&self) -> (w: u64)
        ensures
            w == self@.writes,
    {
        self.writes
    }

    /// The size of the mapped page, in bytes.
    pub fn page_size(&self) -> (s: u64)
        ensures
            s == self@.page_size,
    {
        self.page_size
    }
}

/// A completed cycle restores the page: run from a well-formed resting state
/// through all five successful steps, the machine ends well formed and at
/// rest, the protection is none again, exactly one dirtying write was
/// absorbed, and the page itself is unchanged. The serialized five-step
/// transition never leaves a readable page behind at the end of a cycle.
pub proof fn lemma_cycle_restores_protection(
    m0: PageModel,
    m1: PageModel,
    m2: PageModel,
    m3: PageModel,
    m4: PageModel,
    m5: PageModel,
)
    requires
        m0.inv(),
        m0.phase == Phase::Idle,
        m1 == m0.after_lock(),
        m2 == m1.after_raise(),
        m3 == m2.after_dirty(),
        m4 == m3.after_clear(),
        m5 == m4.after_release(),
    ensures
        m5.inv(),
        m5.phase == Phase::Idle,
        m5.protection == Protection::NoAccess,
        m5.writes == wrap_inc(m0.writes),
        m5.page_size == m0.page_size,
{
}

} // verus!
