//! The bounded command queue: a FIFO of fixed capacity feeding the
//! dispatcher, filled by any number of producers. A full queue refuses the
//! send — the producer blocks and retries rather than dropping — and the
//! single consumer always takes the oldest entry, so commands arrive at the
//! dispatcher in exact send order.

use vstd::prelude::*;

use crate::cmd::Commands;

verus! {

/// How many commands the queue holds at most.
pub const COMMAND_QUEUE_CAPACITY: usize = 64;

/// The bounded FIFO of pending commands, oldest first.
#[derive(Debug)]
pub struct CommandQueue {
    items: Vec<Commands>,
}

impl View for CommandQueue {
    type V = Seq<Commands>;

    closed spec fn view(&self) -> Seq<Commands> {
        self.items@
    }
}

/// What a send does to the queue: appends when there is room, refuses and
/// leaves the queue unchanged when it is full.
pub open spec fn spec_try_send(q: Seq<Commands>, cmd: Commands) -> (bool, Seq<Commands>) {
    if q.len() < COMMAND_QUEUE_CAPACITY {
        (true, q.push(cmd))
    } else {
        (false, q)
    }
}

/// What a receive does: takes the oldest entry, or nothing from an empty
/// queue.
pub open spec fn spec_try_receive(q: Seq<Commands>) -> (Option<Commands>, Seq<Commands>) {
    if q.len() == 0 {
        (None, q)
    } else {
        (Some(q[0]), q.skip(1))
    }
}

impl CommandQueue {
    /// An empty queue.
    pub fn new() -> (q: Self)
        ensures
            q@ == Seq::<Commands>::empty(),
    {
        CommandQueue { items: Vec::new() }
    }

    /// How many commands are pending.
    pub fn len(&self) -> (n: usize)
        ensures
            n == self@.len(),
    {
        self.items.len()
    }

    /// Whether the queue holds no command.
    pub fn is_empty(&self) -> (r: bool)
        ensures
            r == (self@.len() == 0),
    {
        self.items.len() == 0
    }

    /// Whether the queue is at capacity, so a send would have to wait.
    pub fn is_full(&self) -> (r: bool)
        ensures
            r == (self@.len() >= COMMAND_QUEUE_CAPACITY),
    {
        self.items.len() >= COMMAND_QUEUE_CAPACITY
    }

    /// Appends a command if there is room. Returns whether the command was
    /// taken; a refused producer must retry once the dispatcher has drained
    /// an entry (backpressure — nothing is dropped).
    pub fn try_send(&mut self, cmd: Commands) -> (sent: bool)
        ensures
            (sent, final(self)@) == spec_try_send(old(self)@, cmd),
    {
        if self.items.len() < COMMAND_QUEUE_CAPACITY {
            self.items.push(cmd);
            true
        } else {
            false
        }
    }

    /// Takes the oldest pending command, if any.
    pub fn try_receive(&mut self) -> (r: Option<Commands>)
        ensures
            (r, final(self)@) == spec_try_receive(old(self)@),
    {
        if self.items.len() == 0 {
            None
        } else {
            let cmd = self.items.remove(0);
            proof {
                assert(self@ =~= old(self)@.skip(1));
            }
            Some(cmd)
        }
    }

    /// Takes every pending command, oldest first.
    pub fn drain(&mut self) -> (out: Vec<Commands>)
        ensures
            out@ == old(self)@,
            final(self)@.len() == 0,
    {
        let mut out: Vec<Commands> = Vec::new();
        loop
            invariant
                out@ + self@ == old(self)@,
            decreases self@.len(),
        {
            match self.try_receive() {
                Some(cmd) => {
                    out.push(cmd);
                    proof {
                        assert(out@ + self@ =~= old(self)@);
                    }
                },
                None => {
                    proof {
                        assert(out@ =~= old(self)@);
                    }
                    return out;
                },
            }
        }
    }
}

/// The queue contents after `k` receives.
pub open spec fn spec_after_receives(q: Seq<Commands>, k: nat) -> Seq<Commands>
    decreases k,
{
    if k == 0 {
        q
    } else {
        spec_try_receive(spec_after_receives(q, (k - 1) as nat)).1
    }
}

/// After `k` receives, the first `k` entries are gone and the rest wait in
/// their original order.
pub proof fn lemma_after_receives(q: Seq<Commands>, k: nat)
    requires
        k <= q.len(),
    ensures
        spec_after_receives(q, k) == q.skip(k as int),
    decreases k,
{
    if k > 0 {
        lemma_after_receives(q, (k - 1) as nat);
        assert(q.skip(k as int - 1).skip(1) =~= q.skip(k as int));
        assert(spec_after_receives(q, k) =~= q.skip(k as int));
    } else {
        assert(q.skip(0) =~= q);
    }
}

/// FIFO delivery: the `k`-th receive from a queue holding `q` returns
/// `q[k]`, so for any two commands sent in order the dispatcher begins
/// processing the earlier one strictly first.
pub proof fn lemma_fifo_order(q: Seq<Commands>, k: nat)
    requires
        k < q.len(),
    ensures
        spec_try_receive(spec_after_receives(q, k)).0 == Some(q[k as int]),
{
    lemma_after_receives(q, k);
}

} // verus!
