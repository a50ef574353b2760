//! Strategy selection: which process-wide barrier mechanism the process uses.

use vstd::prelude::*;

verus! {

/// The barrier mechanism a process settles on, once, at startup.
///
/// Exactly one value is active for the lifetime of a process: the platform
/// layer probes the kernel once, calls [`resolve`], and caches the result.
#[derive(Clone, Copy, PartialEq, Eq, Structural, Debug)]
pub enum Strategy {
    /// The kernel's global-expedited barrier system call is available and the
    /// process registered for it.
    SyscallBarrier,
    /// The page-protection trick: flipping a locked page's protection forces a
    /// cross-processor TLB shootdown, which doubles as a global barrier.
    PageProtectionBarrier,
    /// No global mechanism: every barrier is an ordinary CPU fence.
    FenceFallback,
}

/// The selection rule: the system call wins, then the page trick, then fences.
pub open spec fn spec_resolve(syscall_supported: bool, page_trick_supported: bool) -> Strategy {
    if syscall_supported {
        Strategy::SyscallBarrier
    } else if page_trick_supported {
        Strategy::PageProtectionBarrier
    } else {
        Strategy::FenceFallback
    }
}

/// Chooses the strategy from the two capability probes.
///
/// `syscall_supported` is the outcome of the gateway probe (the global-expedited
/// commands are advertised and registration succeeded); `page_trick_supported`
/// says whether this processor family guarantees the TLB shootdown the page
/// trick relies on. Probing never fails fatally: some strategy always comes out.
pub fn resolve(syscall_supported: bool, page_trick_supported: bool) -> (s: Strategy)
    ensures
        s == spec_resolve(syscall_supported, page_trick_supported),
{
    if syscall_supported {
        Strategy::SyscallBarrier
    } else if page_trick_supported {
        Strategy::PageProtectionBarrier
    } else {
        Strategy::FenceFallback
    }
}

/// Within one process run the probes are made once and their outcome is fixed,
/// so any two resolutions agree: every caller observes the same strategy.
pub proof fn lemma_resolve_deterministic(
    syscall_supported: bool,
    page_trick_supported: bool,
    s1: Strategy,
    s2: Strategy,
)
    requires
        s1 == spec_resolve(syscall_supported, page_trick_supported),
        s2 == spec_resolve(syscall_supported, page_trick_supported),
    ensures
        s1 == s2,
{
}

} // verus!
