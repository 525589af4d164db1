//! The service: the command queue and the execution actor composed, as
//! the event loop drives them. Processing `Exit` stops the actor and
//! closes the queue's consumer side in the same stroke, so that every
//! later submission observes `ActorGone`.

use vstd::prelude::*;
use crate::actor::{ack_of, next_state, publish_of, tick_publish, tick_state, Actor, ActorState,
    Response};
use crate::queue::{enqueue_outcome, Command, CommandQueue, EnqueueResult};
use crate::snapshot::MachineSnapshot;
use crate::telemetry::frame_spec;
use crate::vm::step_outcome;

verus! {

/// The queue and the actor that consumes it.
pub struct Service {
    /// The bounded command queue the producers submit to.
    pub queue: CommandQueue,
    /// The single consumer.
    pub actor: Actor,
}

impl Service {
    /// The service's invariant: the queue never exceeds its capacity,
    /// and once the actor is stopped the queue is closed.
    pub open spec fn wf(self) -> bool {
        &&& self.queue.wf()
        &&& self.actor.state is Stopped ==> self.queue.closed
    }

    /// A fresh service: an idle actor behind an empty, open queue.
    pub fn new(capacity: usize) -> (r: Service)
        ensures
            r.queue.commands@.len() == 0,
            r.queue.capacity == capacity,
            !r.queue.closed,
            r.actor.state is Idle,
            r.wf(),
    {
        Service { queue: CommandQueue::new(capacity), actor: Actor::new() }
    }

    /// Submit a command from a producer: a non-blocking enqueue. After
    /// the actor has processed `Exit`, this observes `ActorGone`.
    pub fn submit(&mut self, c: Command) -> (r: EnqueueResult)
        ensures
            enqueue_outcome(old(self).queue, c, final(self).queue, r),
            final(self).actor == old(self).actor,
            old(self).wf() && old(self).actor.state is Stopped
                ==> r == EnqueueResult::ActorGone,
            old(self).wf() ==> final(self).wf(),
    {
        self.queue.enqueue(c)
    }

    /// Consume and process the oldest pending command, if any. The
    /// command that stops the actor also closes the queue.
    pub fn process_next(&mut self) -> (r: Option<Response>)
        ensures
            old(self).queue.commands@.len() == 0 ==> r is None && *final(self) == *old(self),
            old(self).queue.commands@.len() > 0 ==> {
                let c = old(self).queue.commands@[0];
                &&& r matches Some(resp) && {
                    &&& resp.ack == ack_of(old(self).actor.state, c)
                    &&& resp.publish matches Some(f) ==> publish_of(old(self).actor.state, c)
                        == Some(f@)
                    &&& resp.publish is None ==> publish_of(old(self).actor.state, c) is None
                    &&& resp.terminated <==> (!(old(self).actor.state is Stopped) && c is Exit)
                    &&& final(self).actor.state == next_state(old(self).actor.state, c)
                    &&& final(self).queue.commands@ == old(self).queue.commands@.drop_first()
                    &&& final(self).queue.capacity == old(self).queue.capacity
                    &&& final(self).queue.closed == (old(self).queue.closed || resp.terminated)
                }
            },
            old(self).wf() ==> final(self).wf(),
    {
        match self.queue.try_dequeue() {
            None => None,
            Some(c) => {
                let resp = self.actor.on_command(c);
                if resp.terminated {
                    self.queue.close();
                }
                Some(resp)
            },
        }
    }

    /// One cadence tick, handed to the actor; the queue is untouched.
    pub fn tick(&mut self) -> (r: Option<String>)
        ensures
            final(self).actor.state == tick_state(old(self).actor.state),
            r matches Some(f) ==> tick_publish(old(self).actor.state) == Some(f@),
            r is None ==> tick_publish(old(self).actor.state) is None,
            final(self).queue == old(self).queue,
            old(self).wf() ==> final(self).wf(),
    {
        self.actor.on_tick()
    }
}

/// After `Exit` is processed, no further command is accepted: the actor
/// is stopped, the queue is closed, and a well-formed service in that
/// state answers every submission with `ActorGone`, its queue unchanged.
pub proof fn lemma_no_acceptance_after_exit(s: Service, c: Command)
    requires
        s.wf(),
        s.actor.state is Stopped,
    ensures
        forall|s2: Service, r: EnqueueResult|
            enqueue_outcome(s.queue, c, s2.queue, r) && s2.actor == s.actor
                ==> r == EnqueueResult::ActorGone && s2.queue == s.queue,
{
}

/// The capacity-two scenario: a run submitted to an idle service behind
/// an empty queue of capacity two is accepted and acknowledged with
/// `true`, and — provided the snapshot's first step succeeds, for a
/// halting snapshot publishes nothing — its frame is published at once,
/// before any cadence wait. With the run consumed, a following cancel
/// finds at most one command pending, so it is accepted, never
/// `Saturated`, and processing it ends the run, the actor idle again.
pub proof fn lemma_capacity_two_run_then_cancel(s: MachineSnapshot, q0: CommandQueue)
    requires
        q0.commands@.len() == 0,
        q0.capacity == 2,
        !q0.closed,
        step_outcome(s) is Some,
    ensures
        forall|q1: CommandQueue, r1: EnqueueResult|
            #[trigger] enqueue_outcome(q0, Command::Run(s), q1, r1)
                ==> r1 == EnqueueResult::Accepted,
        ack_of(ActorState::Idle, Command::Run(s)) == Some(true),
        publish_of(ActorState::Idle, Command::Run(s))
            == Some(frame_spec(step_outcome(s).unwrap())),
        next_state(ActorState::Idle, Command::Run(s))
            == ActorState::Running(step_outcome(s).unwrap()),
        forall|q: CommandQueue, q2: CommandQueue, r2: EnqueueResult|
            q.commands@.len() <= 1 && q.capacity == 2 && !q.closed
                && #[trigger] enqueue_outcome(q, Command::Cancel, q2, r2)
                ==> r2 == EnqueueResult::Accepted,
        forall|m: MachineSnapshot|
            #[trigger] next_state(ActorState::Running(m), Command::Cancel) == ActorState::Idle,
{
}

} // verus!
