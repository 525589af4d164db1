use baby_actor::queue::{Command, CommandQueue, EnqueueResult};
use baby_actor::snapshot::MachineSnapshot;

#[test]
fn saturation_at_capacity() {
    let mut q = CommandQueue::new(3);
    assert_eq!(q.enqueue(Command::Cancel), EnqueueResult::Accepted);
    assert_eq!(q.enqueue(Command::Run(MachineSnapshot::new())), EnqueueResult::Accepted);
    assert_eq!(q.enqueue(Command::Exit), EnqueueResult::Accepted);
    // The queue is full: one more is rejected and the contents stay.
    assert_eq!(q.enqueue(Command::Cancel), EnqueueResult::Saturated);
    assert_eq!(q.len(), 3);
    assert_eq!(q.try_dequeue(), Some(Command::Cancel));
    assert_eq!(q.try_dequeue(), Some(Command::Run(MachineSnapshot::new())));
    assert_eq!(q.try_dequeue(), Some(Command::Exit));
    assert_eq!(q.try_dequeue(), None);
}

#[test]
fn fifo_order_is_kept() {
    let mut q = CommandQueue::new(8);
    let mut a = MachineSnapshot::new();
    a.accumulator = 1;
    let mut b = MachineSnapshot::new();
    b.accumulator = 2;
    q.enqueue(Command::Run(a));
    q.enqueue(Command::Cancel);
    q.enqueue(Command::Run(b));
    assert_eq!(q.try_dequeue(), Some(Command::Run(a)));
    assert_eq!(q.try_dequeue(), Some(Command::Cancel));
    assert_eq!(q.try_dequeue(), Some(Command::Run(b)));
}

#[test]
fn closed_queue_reports_actor_gone() {
    let mut q = CommandQueue::new(4);
    assert_eq!(q.enqueue(Command::Cancel), EnqueueResult::Accepted);
    q.close();
    assert!(q.is_closed());
    assert_eq!(q.enqueue(Command::Exit), EnqueueResult::ActorGone);
    assert_eq!(q.enqueue(Command::Run(MachineSnapshot::new())), EnqueueResult::ActorGone);
    // The pending contents are untouched by the rejected attempts.
    assert_eq!(q.len(), 1);
    assert_eq!(q.try_dequeue(), Some(Command::Cancel));
}

#[test]
fn empty_dequeue_is_none() {
    let mut q = CommandQueue::new(2);
    assert_eq!(q.try_dequeue(), None);
    assert_eq!(q.len(), 0);
}
