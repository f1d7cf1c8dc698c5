//! The heap guard: what the engine is told when heap use nears its limit.

use vstd::prelude::*;
use crate::signal::{TerminationSignal, TerminationSource};

verus! {

/// The limit that the engine is granted when it reports `current`: twice the
/// current one, at least one byte more, and never more than the machine can
/// count. The headroom lets the engine unwind and honour the termination.
pub open spec fn raised_limit(current: usize) -> usize {
    if current == 0 {
        1
    } else if 2 * current <= usize::MAX {
        (2 * current) as usize
    } else {
        usize::MAX
    }
}

/// Computes [`raised_limit`].
pub fn raise_limit(current: usize) -> (raised: usize)
    ensures
        raised == raised_limit(current),
{
    if current == 0 {
        1
    } else {
        match current.checked_mul(2) {
            Some(doubled) => doubled,
            None => usize::MAX,
        }
    }
}

/// The raised limit is never below the current one, and strictly above it
/// wherever a larger limit exists.
pub proof fn raised_limit_grows(current: usize)
    ensures
        raised_limit(current) >= current,
        current < usize::MAX ==> raised_limit(current) > current,
        0 < 2 * current <= usize::MAX ==> raised_limit(current) == 2 * current,
{
}

/// What the heap guard answers to one interception.
#[derive(Debug, Clone, Copy, PartialEq, Eq, Structural)]
pub struct HeapGuardVerdict {
    /// Whether the isolate is to be told to stop.
    pub terminate: bool,
    /// The heap limit that the engine continues with.
    pub new_limit: usize,
}

/// One interception: records the heap guard's request in `signal` and returns
/// the limit to continue with. It may be invoked any number of times.
pub fn intercept(signal: &mut TerminationSignal, current_limit: usize) -> (new_limit: usize)
    ensures
        final(signal)@ == old(signal)@.request(TerminationSource::HeapGuard),
        new_limit == raised_limit(current_limit),
{
    signal.request(TerminationSource::HeapGuard);
    raise_limit(current_limit)
}

} // verus!
