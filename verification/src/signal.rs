//! The wake signal: a single-slot, coalescing event used to interrupt a
//! blocking wait. Firing marks the slot pending — bursts of fires collapse
//! into one pending wake — and the one waiting task consumes the slot when
//! it wakes. The consumer learns only "something changed since I last
//! looked", which is all the controller loops need.

use vstd::prelude::*;

verus! {

/// A single-slot coalescing wake event. The view is whether a wake is
/// pending.
#[derive(Debug)]
pub struct WakeSignal {
    pending: bool,
}

impl View for WakeSignal {
    type V = bool;

    closed spec fn view(&self) -> bool {
        self.pending
    }
}

/// What firing does to the slot: it is pending afterwards, however often it
/// was fired before.
pub open spec fn spec_fire(pending: bool) -> bool {
    true
}

impl WakeSignal {
    /// A signal with no wake pending.
    pub fn new() -> (s: Self)
        ensures
            !s@,
    {
        WakeSignal { pending: false }
    }

    /// Marks the slot pending. Any task may fire; the owning waiter wakes at
    /// its next wait.
    pub fn fire(&mut self)
        ensures
            final(self)@ == spec_fire(old(self)@),
    {
        self.pending = true;
    }

    /// Consumes a pending wake: returns whether one was pending and clears
    /// the slot. The waiting task suspends between calls until this returns
    /// true.
    pub fn take(&mut self) -> (was_pending: bool)
        ensures
            was_pending == old(self)@,
            !final(self)@,
    {
        let was_pending = self.pending;
        self.pending = false;
        was_pending
    }
}

/// Coalescing: firing a second time before the wake is consumed changes
/// nothing — bursts of fires collapse into a single wake.
pub proof fn lemma_fire_coalesces(pending: bool)
    ensures
        spec_fire(spec_fire(pending)) == spec_fire(pending),
{
}

} // verus!
