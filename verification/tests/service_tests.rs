use baby_actor::actor::ActorState;
use baby_actor::queue::{Command, EnqueueResult};
use baby_actor::service::Service;
use baby_actor::snapshot::MachineSnapshot;

#[test]
fn exit_closes_the_service() {
    let mut s = Service::new(8);
    assert_eq!(s.submit(Command::Exit), EnqueueResult::Accepted);
    let resp = s.process_next().unwrap();
    assert!(resp.terminated);
    // No further command is accepted: every submission observes
    // ActorGone and leaves the queue unchanged.
    assert_eq!(s.submit(Command::Run(MachineSnapshot::new())), EnqueueResult::ActorGone);
    assert_eq!(s.submit(Command::Cancel), EnqueueResult::ActorGone);
    assert_eq!(s.queue.len(), 0);
    assert!(s.queue.is_closed());
    assert_eq!(s.actor.state, ActorState::Stopped);
}

#[test]
fn two_runs_one_winner() {
    // Two runs submitted back to back while the actor still processes
    // the first: the first is acknowledged with true, the second with
    // false, and the first run continues unaffected.
    let mut s = Service::new(8);
    let first = MachineSnapshot::new();
    let mut second = MachineSnapshot::new();
    second.accumulator = 7;
    assert_eq!(s.submit(Command::Run(first)), EnqueueResult::Accepted);
    assert_eq!(s.submit(Command::Run(second)), EnqueueResult::Accepted);
    let r1 = s.process_next().unwrap();
    assert_eq!(r1.ack, Some(true));
    assert!(r1.publish.is_some());
    let held = s.actor.state;
    let r2 = s.process_next().unwrap();
    assert_eq!(r2.ack, Some(false));
    assert!(r2.publish.is_none());
    assert_eq!(s.actor.state, held);
    // The next cadence tick still advances the first run.
    assert!(s.tick().is_some());
    assert!(matches!(s.actor.state, ActorState::Running(_)));
}

#[test]
fn processing_an_empty_queue_does_nothing() {
    let mut s = Service::new(2);
    assert!(s.process_next().is_none());
    assert_eq!(s.actor.state, ActorState::Idle);
    assert!(!s.queue.is_closed());
}

#[test]
fn cancel_then_exit_through_the_queue() {
    let mut s = Service::new(4);
    s.submit(Command::Run(MachineSnapshot::new()));
    s.submit(Command::Cancel);
    s.submit(Command::Exit);
    let r1 = s.process_next().unwrap();
    assert_eq!(r1.ack, Some(true));
    let r2 = s.process_next().unwrap();
    assert!(r2.ack.is_none());
    assert_eq!(s.actor.state, ActorState::Idle);
    let r3 = s.process_next().unwrap();
    assert!(r3.terminated);
    assert_eq!(s.actor.state, ActorState::Stopped);
    assert!(s.queue.is_closed());
}
