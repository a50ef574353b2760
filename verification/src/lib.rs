//! Process-wide memory barrier engine.
//!
//! One thread can force every thread in the process to observe a memory fence,
//! at a cost asymmetry: hot call sites pay almost nothing ([`light`]) while a
//! rarely executed cold call site pays the full cost of synchronizing the
//! whole process ([`heavy`]).
//!
//! Three mechanisms stand behind that contract, unified by [`strategy::Strategy`]:
//! a global-expedited barrier system call, a page-protection trick that exploits
//! the mandatory cross-processor TLB shootdown on a protection transition, and a
//! plain `SeqCst` fence fallback. The kernel is probed once at process start and
//! the chosen strategy never changes.
//!
//! This crate is the decision and bookkeeping engine, verified end to end: it
//! selects the strategy, fixes the system-call command vocabulary, judges every
//! raw kernel return code, and tracks the page-protection cycle as an explicit
//! state machine whose invariant guarantees that each full cycle restores the
//! page to its no-access state. The raw kernel invocations themselves cannot be
//! verified; a thin platform layer performs them and feeds every result back
//! into this engine.
//!
//! # Semantics
//!
//! In an execution there is a total order over all barriers. If thread A issues
//! barrier X, thread B issues barrier Y, and X is ordered before Y, then A's
//! view of memory at X is transferred to B after Y, provided that either X or Y
//! is heavy, or both are ordinary `SeqCst` fences. Two light barriers under a
//! supported strategy are compiler fences only and do not synchronize cores.

pub mod fallback;
pub mod fatal;
pub mod gateway;
pub mod page;
mod fence;
pub mod strategy;

use vstd::prelude::*;
use crate::fatal::Fatal;
use crate::strategy::{resolve, spec_resolve, Strategy};

verus! {

/// What a [`light`] barrier issued on the calling thread.
#[derive(Clone, Copy, PartialEq, Eq, Structural, Debug)]
pub enum LightFence {
    /// A compiler fence only: reordering across it is forbidden to the
    /// compiler, but no instruction is emitted. Enough whenever a global
    /// mechanism exists for [`heavy`] to offload onto.
    Compiler,
    /// A full `SeqCst` CPU fence: under the fallback strategy there is nothing
    /// to offload onto, so even the light barrier pays for a real fence.
    Full,
}

/// The kernel work a [`heavy`] barrier delegates to the platform layer.
#[derive(Clone, Copy, PartialEq, Eq, Structural, Debug)]
pub enum KernelWork {
    /// Issue the global-expedited barrier system call and judge its return
    /// code with [`gateway::barrier`].
    GlobalBarrier,
    /// Run one full page-protection cycle, driving
    /// [`page::PageBarrier`] through its five steps under the page mutex.
    PageCycle,
}

/// The process-wide handle: the one piece of state every barrier call reads.
///
/// Built once at startup from the capability probes and then only ever shared
/// immutably, so the strategy can never be re-evaluated: all callers observe
/// the same value for the lifetime of the process.
pub struct Membarrier {
    strategy: Strategy,
}

/// Which fence [`light`] issues under each strategy.
pub open spec fn spec_light_fence(s: Strategy) -> LightFence {
    match s {
        Strategy::SyscallBarrier => LightFence::Compiler,
        Strategy::PageProtectionBarrier => LightFence::Compiler,
        Strategy::FenceFallback => LightFence::Full,
    }
}

/// Which kernel work [`heavy`] delegates under each strategy.
pub open spec fn spec_heavy_work(s: Strategy) -> Option<KernelWork> {
    match s {
        Strategy::SyscallBarrier => Some(KernelWork::GlobalBarrier),
        Strategy::PageProtectionBarrier => Some(KernelWork::PageCycle),
        Strategy::FenceFallback => None,
    }
}

impl Membarrier {
    /// The strategy this handle was resolved to. Nothing ever assigns it after
    /// construction.
    pub closed spec fn spec_strategy(self) -> Strategy {
        self.strategy
    }

    /// Builds the handle from the two capability probes, resolving the
    /// strategy exactly once.
    pub fn new(syscall_supported: bool, page_trick_supported: bool) -> (h: Self)
        ensures
            h.spec_strategy() == spec_resolve(syscall_supported, page_trick_supported),
    {
        Membarrier { strategy: resolve(syscall_supported, page_trick_supported) }
    }

    /// The strategy this process settled on.
    pub fn strategy(&self) -> (s: Strategy)
        ensures
            s == self.spec_strategy(),
    {
        self.strategy
    }
}

/// Issues a light memory barrier for a fast path.
///
/// Under a supported strategy it is a compiler fence only — basically free at
/// run time — because a later [`heavy`] call does the cross-thread work. Under
/// the fallback strategy it issues the full `SeqCst` fence, since no global
/// mechanism exists to offload onto. It never blocks and never fails.
pub fn light(h: &Membarrier) -> (f: LightFence)
    ensures
        f == spec_light_fence(h.spec_strategy()),
{
    match h.strategy {
        Strategy::SyscallBarrier => {
            fence::compiler_fence_seq_cst();
            LightFence::Compiler
        },
        Strategy::PageProtectionBarrier => {
            fence::compiler_fence_seq_cst();
            LightFence::Compiler
        },
        Strategy::FenceFallback => {
            fence::fence_seq_cst();
            LightFence::Full
        },
    }
}

/// Issues a heavy memory barrier for a slow path.
///
/// Under the fallback strategy the full `SeqCst` fence is issued here and
/// `None` comes back: nothing is left to do and no error is possible. Under
/// the two supported strategies the cross-process step is a kernel call this
/// crate cannot make itself, so the exact work owed is returned for the
/// platform layer to perform; it is never a probe or a registration, so no
/// number of heavy barriers can re-run initialization.
pub fn heavy(h: &Membarrier) -> (w: Option<KernelWork>)
    ensures
        w == spec_heavy_work(h.spec_strategy()),
{
    match h.strategy {
        Strategy::SyscallBarrier => Some(KernelWork::GlobalBarrier),
        Strategy::PageProtectionBarrier => Some(KernelWork::PageCycle),
        Strategy::FenceFallback => {
            fence::fence_seq_cst();
            None
        },
    }
}

/// Demands the syscall strategy: succeeds exactly when the gateway probe found
/// the global-expedited barrier supported and registered this process for it.
///
/// A caller that insists on the system-call mechanism treats an unsupported
/// probe as unrecoverable rather than falling through to another strategy.
pub fn init_membarrier(syscall_supported: bool) -> (r: Result<(), Fatal>)
    ensures
        r is Ok <==> syscall_supported,
        r is Err ==> r == Err::<(), Fatal>(Fatal::SyscallUnsupported),
{
    if syscall_supported {
        Ok(())
    } else {
        Err(Fatal::SyscallUnsupported)
    }
}

/// Issues a light memory barrier for a fast path under the syscall strategy.
///
/// It issues a compiler fence, which disallows compiler optimizations across
/// itself and incurs basically no cost at run time.
pub fn light_membarrier() {
    fence::compiler_fence_seq_cst();
}

} // verus!
