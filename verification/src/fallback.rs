//! The fence-only barrier pair, for hosts with no global mechanism at all.

use vstd::prelude::*;
use crate::fence;

verus! {

/// Issues a light memory barrier for a fast path.
///
/// With no global mechanism to offload onto, it issues the normal `SeqCst`
/// memory fence.
pub fn light() {
    fence::fence_seq_cst();
}

/// Issues a heavy memory barrier for a slow path.
///
/// With no global mechanism available, it issues the normal `SeqCst` memory
/// fence; it cannot block on anything and cannot fail.
pub fn heavy() {
    fence::fence_seq_cst();
}

} // verus!
