//! The fence primitive: relied upon, not built.

use vstd::prelude::*;

verus! {

/// Relies on core::sync::atomic::fence with `SeqCst`: a full CPU memory fence
/// on the calling thread. It neither blocks nor fails and returns nothing, so
/// no contract is stated; its ordering effect lives below the memory model
/// this crate reasons in.
#[verifier::external_body]
pub(crate) fn fence_seq_cst() {
    core::sync::atomic::fence(core::sync::atomic::Ordering::SeqCst);
}

/// Relies on core::sync::atomic::compiler_fence with `SeqCst`: forbids the
/// compiler to move memory operations across it, emits no instruction. It
/// neither blocks nor fails and returns nothing, so no contract is stated.
#[verifier::external_body]
pub(crate) fn compiler_fence_seq_cst() {
    core::sync::atomic::compiler_fence(core::sync::atomic::Ordering::SeqCst);
}

} // verus!
