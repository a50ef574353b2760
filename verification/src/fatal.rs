//! The unrecoverable error category.

use vstd::prelude::*;

verus! {

/// An unrecoverable failure: the process asserted support for a mechanism and
/// the mechanism then failed anyway, or the one-time page setup failed.
///
/// A heavy barrier is a promise other threads rely on implicitly — they skip
/// their own fence because they trust it happened — so a partial failure must
/// never be reported as success. The platform layer that receives a `Fatal`
/// terminates the process; none of these values is ever retried or swallowed.
#[derive(Clone, Copy, PartialEq, Eq, Structural, Debug)]
pub enum Fatal {
    /// A caller demanded the syscall strategy but the probe found it
    /// unsupported.
    SyscallUnsupported,
    /// The global-expedited barrier system call itself returned an error after
    /// the probe had asserted support.
    BarrierSyscall,
    /// Mapping, aligning or locking the shared page, or constructing its
    /// mutex, failed during one-time setup.
    PageSetup,
    /// Acquiring or releasing the page mutex failed mid-cycle.
    PageLock,
    /// A page-protection transition failed mid-cycle; the global guarantee can
    /// no longer be upheld.
    PageProtection,
}

} // verus!
