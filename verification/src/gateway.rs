//! The syscall gateway: the fixed command vocabulary of the global-barrier
//! system call, and the verdict on every raw return code.
//!
//! The platform layer is the sole place allowed to perform the numeric system
//! call; everything it decides with the results — which capability bits prove
//! support, whether registration succeeded, whether an execution failure is
//! fatal — is fixed here and verified. The flow is: issue the query command,
//! hand the return code to [`on_query_result`]; if a registration command
//! comes back, issue it and hand its return code to [`on_register_result`];
//! from then on each heavy barrier issues the global-expedited command and
//! hands its return code to [`barrier`].

use vstd::prelude::*;
use crate::fatal::Fatal;

verus! {

/// The command vocabulary of the global-barrier system call.
///
/// The numeric values are fixed by the kernel's ABI and must match exactly;
/// [`cmd_value`] is their one encoding. Any mismatch would be a portability
/// break, not a runtime error.
#[derive(Clone, Copy, PartialEq, Eq, Structural, Debug)]
pub enum MembarrierCmd {
    /// Ask which commands the running kernel supports; the answer is a bit
    /// mask of the other commands' values.
    Query,
    /// The unexpedited global barrier.
    Global,
    /// Execute an expedited barrier across all threads of every registered
    /// process, the caller's included.
    GlobalExpedited,
    /// Register the current process as a user of the expedited global barrier.
    RegisterGlobalExpedited,
    /// The expedited barrier over the current process only.
    PrivateExpedited,
    /// Register for the private expedited barrier.
    RegisterPrivateExpedited,
    /// The private expedited barrier that also serializes instruction streams.
    PrivateExpeditedSyncCore,
    /// Register for the sync-core private expedited barrier.
    RegisterPrivateExpeditedSyncCore,
}

/// The kernel's encoding of each command: the query is zero and every other
/// command is its own bit of the query's answer mask.
pub open spec fn spec_cmd_value(c: MembarrierCmd) -> i32 {
    match c {
        MembarrierCmd::Query => 0,
        MembarrierCmd::Global => 1,
        MembarrierCmd::GlobalExpedited => 2,
        MembarrierCmd::RegisterGlobalExpedited => 4,
        MembarrierCmd::PrivateExpedited => 8,
        MembarrierCmd::RegisterPrivateExpedited => 16,
        MembarrierCmd::PrivateExpeditedSyncCore => 32,
        MembarrierCmd::RegisterPrivateExpeditedSyncCore => 64,
    }
}

/// Encodes a command for the raw system call.
pub fn cmd_value(c: MembarrierCmd) -> (v: i32)
    ensures
        v == spec_cmd_value(c),
{
    match c {
        MembarrierCmd::Query => 0,
        MembarrierCmd::Global => 1,
        MembarrierCmd::GlobalExpedited => 2,
        MembarrierCmd::RegisterGlobalExpedited => 4,
        MembarrierCmd::PrivateExpedited => 8,
        MembarrierCmd::RegisterPrivateExpedited => 16,
        MembarrierCmd::PrivateExpeditedSyncCore => 32,
        MembarrierCmd::RegisterPrivateExpeditedSyncCore => 64,
    }
}

/// What the query's answer must show before the syscall strategy may be kept:
/// the call succeeded and both required capability bits are set — support for
/// the expedited global command, and support for registering as its user.
pub open spec fn spec_query_supported(ret: i64) -> bool {
    &&& ret >= 0
    &&& ret & (spec_cmd_value(MembarrierCmd::GlobalExpedited) as i64) != 0
    &&& ret & (spec_cmd_value(MembarrierCmd::RegisterGlobalExpedited) as i64) != 0
}

/// Judges the query command's return code.
///
/// An error code or a missing capability bit means "not supported" — never a
/// crash — and `None` comes back. With both bits present the probe owes one
/// more call, and the exact command to issue is returned.
pub fn on_query_result(ret: i64) -> (next: Option<MembarrierCmd>)
    ensures
        spec_query_supported(ret) ==> next == Some(MembarrierCmd::RegisterGlobalExpedited),
        !spec_query_supported(ret) ==> next is None,
{
    let expedited = cmd_value(MembarrierCmd::GlobalExpedited) as i64;
    let register = cmd_value(MembarrierCmd::RegisterGlobalExpedited) as i64;
    if ret < 0 || ret & expedited == 0 || ret & register == 0 {
        None
    } else {
        Some(MembarrierCmd::RegisterGlobalExpedited)
    }
}

/// Judges the registration command's return code: the process is a registered
/// user of the expedited global barrier exactly when the call did not fail.
/// A failure is "not supported", never fatal — the selector falls through.
pub fn on_register_result(ret: i64) -> (supported: bool)
    ensures
        supported <==> ret >= 0,
{
    ret >= 0
}

/// The probe's verdict over both return codes at once: the syscall strategy is
/// supported exactly when the query advertised both capability bits and the
/// registration call succeeded.
pub fn is_supported(query_ret: i64, register_ret: i64) -> (supported: bool)
    ensures
        supported <==> spec_query_supported(query_ret) && register_ret >= 0,
{
    match on_query_result(query_ret) {
        Some(_) => on_register_result(register_ret),
        None => false,
    }
}

/// Judges the return code of the global-expedited barrier execution.
///
/// The process previously asserted support, so an error here is a severe
/// inconsistency with no safe fallback mid-flight: it is fatal for the call,
/// never recoverable.
pub fn barrier(execute_ret: i64) -> (r: Result<(), Fatal>)
    ensures
        r is Ok <==> execute_ret >= 0,
        r is Err ==> r == Err::<(), Fatal>(Fatal::BarrierSyscall),
{
    if execute_ret >= 0 {
        Ok(())
    } else {
        Err(Fatal::BarrierSyscall)
    }
}

} // verus!
