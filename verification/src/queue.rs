//! The command queue: a bounded FIFO buffer between the producers that
//! issue commands and the single actor that consumes them. Enqueue is
//! non-blocking; a full queue and a gone consumer are both first-class,
//! observable outcomes.

use vstd::prelude::*;
use crate::snapshot::MachineSnapshot;

verus! {

/// A command for the execution actor, consumed exactly once, strictly in
/// arrival order. `Run` carries the snapshot to execute; the actor answers
/// it with a one-shot boolean acknowledgment.
#[derive(Clone, Copy, PartialEq, Debug)]
pub enum Command {
    /// Start executing the carried snapshot.
    Run(MachineSnapshot),
    /// End the run in progress, if any.
    Cancel,
    /// Stop the actor for good.
    Exit,
}

/// The outcome of a non-blocking enqueue.
#[derive(Clone, Copy, PartialEq, Eq, Debug)]
pub enum EnqueueResult {
    /// The command was appended and will be consumed.
    Accepted,
    /// The queue is at capacity; the producer must handle the rejection.
    Saturated,
    /// The consumer side is closed; no command will ever be consumed.
    ActorGone,
}

/// A bounded FIFO of commands. `commands` holds the pending commands in
/// arrival order, oldest first; `closed` records that the consumer is
/// gone.
pub struct CommandQueue {
    /// Pending commands, oldest first.
    pub commands: Vec<Command>,
    /// The fixed capacity the queue was created with.
    pub capacity: usize,
    /// Whether the consumer side has been closed.
    pub closed: bool,
}

impl CommandQueue {
    /// The queue never holds more commands than its capacity.
    pub open spec fn wf(self) -> bool {
        self.commands@.len() <= self.capacity
    }

    /// An empty, open queue with the given capacity.
    pub fn new(capacity: usize) -> (r: CommandQueue)
        ensures
            r.commands@.len() == 0,
            r.capacity == capacity,
            !r.closed,
            r.wf(),
    {
        CommandQueue { commands: Vec::new(), capacity, closed: false }
    }

    /// Append a command without blocking. A closed queue reports
    /// `ActorGone` and a full queue reports `Saturated`; in both cases the
    /// queue is left exactly as it was.
    pub fn enqueue(&mut self, c: Command) -> (r: EnqueueResult)
        ensures
            enqueue_outcome(*old(self), c, *final(self), r),
            old(self).wf() ==> final(self).wf(),
    {
        if self.closed {
            EnqueueResult::ActorGone
        } else if self.commands.len() >= self.capacity {
            EnqueueResult::Saturated
        } else {
            self.commands.push(c);
            EnqueueResult::Accepted
        }
    }

    /// Take the oldest pending command without blocking, if there is one.
    pub fn try_dequeue(&mut self) -> (r: Option<Command>)
        ensures
            old(self).commands@.len() == 0 ==> r is None && *final(self) == *old(self),
            old(self).commands@.len() > 0 ==> {
                &&& r == Some(old(self).commands@[0])
                &&& final(self).commands@ == old(self).commands@.drop_first()
                &&& final(self).capacity == old(self).capacity
                &&& final(self).closed == old(self).closed
            },
            old(self).wf() ==> final(self).wf(),
    {
        if self.commands.len() == 0 {
            None
        } else {
            Some(self.commands.remove(0))
        }
    }

    /// Close the consumer side: every later enqueue observes `ActorGone`.
    pub fn close(&mut self)
        ensures
            final(self).closed,
            final(self).commands@ == old(self).commands@,
            final(self).capacity == old(self).capacity,
    {
        self.closed = true;
    }

    /// How many commands are pending.
    pub fn len(&self) -> (r: usize)
        ensures
            r == self.commands@.len(),
    {
        self.commands.len()
    }

    /// Whether the consumer side has been closed.
    pub fn is_closed(&self) -> (r: bool)
        ensures
            r == self.closed,
    {
        self.closed
    }
}

/// Once the consumer side is closed, no command is accepted any more:
/// every enqueue observes `ActorGone` and leaves the queue's contents
/// unchanged, whatever the command and however often it is retried.
pub proof fn lemma_closed_queue_accepts_nothing(q: CommandQueue, c: Command)
    requires
        q.closed,
    ensures
        forall|q2: CommandQueue, r: EnqueueResult|
            enqueue_outcome(q, c, q2, r) ==> r == EnqueueResult::ActorGone && q2 == q,
{
}

/// The relation `enqueue` establishes between the queue before the call,
/// the command, the queue after the call and the result.
pub open spec fn enqueue_outcome(
    q: CommandQueue,
    c: Command,
    q2: CommandQueue,
    r: EnqueueResult,
) -> bool {
    if q.closed {
        r == EnqueueResult::ActorGone && q2 == q
    } else if q.commands@.len() >= q.capacity {
        r == EnqueueResult::Saturated && q2 == q
    } else {
        r == EnqueueResult::Accepted && q2.commands@ == q.commands@.push(c)
            && q2.capacity == q.capacity && !q2.closed
    }
}

} // verus!
