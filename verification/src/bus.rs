//! The bus owner: a mutual-exclusion wrapper around the single hardware bus
//! handle, shared by the dispatcher (one-shot sensor sequences) and the
//! background poller (continuous sampling). At most one task holds the bus
//! at a time; a transaction is only performed by the holder.

use vstd::prelude::*;

verus! {

/// The two tasks that transact on the shared bus.
#[derive(Clone, Copy, Debug, PartialEq, Eq, Structural)]
pub enum BusTask {
    /// The command dispatcher, issuing one-shot sensor sequences.
    Dispatcher,
    /// The background poller, reading continuous measurements.
    Poller,
}

/// The mutual-exclusion owner of the bus handle. The view is the task
/// currently holding the bus, if any.
#[derive(Debug)]
pub struct BusOwner {
    holder: Option<BusTask>,
}

impl View for BusOwner {
    type V = Option<BusTask>;

    closed spec fn view(&self) -> Option<BusTask> {
        self.holder
    }
}

impl BusOwner {
    /// A bus nobody holds.
    pub fn new() -> (b: Self)
        ensures
            b@ is None,
    {
        BusOwner { holder: None }
    }

    /// Whether `task` currently holds the bus.
    pub fn held_by(&self, task: BusTask) -> (r: bool)
        ensures
            r == (self@ == Some(task)),
    {
        match self.holder {
            Some(t) => t == task,
            None => false,
        }
    }

    /// Grants the bus to `task` if it is free. A refused task suspends and
    /// retries when the holder releases; acquisition always eventually
    /// succeeds because no holder keeps the bus across a wait.
    pub fn try_acquire(&mut self, task: BusTask) -> (granted: bool)
        ensures
            old(self)@ is None ==> granted && final(self)@ == Some(task),
            old(self)@ is Some ==> !granted && final(self)@ == old(self)@,
    {
        match self.holder {
            None => {
                self.holder = Some(task);
                true
            },
            Some(_) => false,
        }
    }

    /// Releases the bus. Only the holder releases, and only after its
    /// transaction is complete.
    pub fn release(&mut self, task: BusTask)
        requires
            old(self)@ == Some(task),
        ensures
            final(self)@ is None,
    {
        self.holder = None;
    }
}

/// One step of bus-lock history.
#[derive(Clone, Copy, Debug, PartialEq, Eq, Structural)]
pub enum BusLockEvent {
    /// A task asked for the bus (granted only when it was free).
    Acquire(BusTask),
    /// The holder gave the bus back.
    Release,
}

/// The holder after one event: an acquire is granted only on a free bus, a
/// release frees it.
pub open spec fn spec_bus_step(holder: Option<BusTask>, ev: BusLockEvent) -> Option<BusTask> {
    match ev {
        BusLockEvent::Acquire(t) => if holder is None {
            Some(t)
        } else {
            holder
        },
        BusLockEvent::Release => None,
    }
}

/// The holder after a whole history of lock events, starting from a free
/// bus.
pub open spec fn spec_bus_run(trace: Seq<BusLockEvent>) -> Option<BusTask>
    decreases trace.len(),
{
    if trace.len() == 0 {
        None
    } else {
        spec_bus_step(spec_bus_run(trace.drop_last()), trace.last())
    }
}

/// Mutual exclusion: at no point of any lock history do the dispatcher and
/// the poller hold the bus together — their holding intervals never overlap.
pub proof fn lemma_bus_mutual_exclusion(trace: Seq<BusLockEvent>)
    ensures
        forall|k: int|
            0 <= k <= trace.len() ==> !(#[trigger] spec_bus_run(trace.take(k)) == Some(
                BusTask::Dispatcher,
            ) && spec_bus_run(trace.take(k)) == Some(BusTask::Poller)),
{
}

} // verus!
