//! One-shot release of a foreign resource: the explicit release path and
//! the automatic fallback share one guard, so the foreign free runs once.
use vstd::prelude::*;

verus! {

/// Records whether the foreign resource behind a handle was given back.
#[derive(Debug, Clone, Copy, PartialEq, Eq, Structural)]
pub struct ReleaseGuard {
    pub released: bool,
}

/// Number of foreign frees that `calls` successive releases perform on a
/// guard that starts in state `released`.
pub open spec fn frees_performed(released: bool, calls: nat) -> nat
    decreases calls,
{
    if calls == 0 {
        0
    } else {
        (if released { 0nat } else { 1nat }) + frees_performed(true, (calls - 1) as nat)
    }
}

impl ReleaseGuard {
    /// A guard for a resource that is held.
    pub fn new() -> (r: ReleaseGuard)
        ensures
            !r.released,
    {
        ReleaseGuard { released: false }
    }

    /// Marks the resource released. The result says whether the caller must
    /// perform the foreign free now: only on the first call.
    pub fn release(&mut self) -> (run: bool)
        ensures
            run == !old(self).released,
            final(self).released,
    {
        let run = !self.released;
        self.released = true;
        run
    }
}

/// However many releases follow one another (the explicit one, then any
/// automatic fallback), a held resource is freed exactly once.
pub proof fn lemma_release_exactly_once(calls: nat)
    requires
        calls >= 1,
    ensures
        frees_performed(false, calls) == 1,
{
    lemma_released_frees_nothing((calls - 1) as nat);
}

/// A guard that is already released never frees again.
pub proof fn lemma_released_frees_nothing(calls: nat)
    ensures
        frees_performed(true, calls) == 0,
    decreases calls,
{
    if calls > 0 {
        lemma_released_frees_nothing((calls - 1) as nat);
    }
}

} // verus!
