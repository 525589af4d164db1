//! The execution actor: the sole consumer of the command queue, and the
//! only entity that advances a snapshot. It owns an `Idle`/`Running` state
//! machine; processing `Exit` is terminal. Every transition is a plain
//! function from the current state and one input to the next state and the
//! observable effects, so the surrounding event loop does nothing but
//! deliver acknowledgments, publish frames, and wait out the cadence.
//!
//! The acknowledgment of a `Run` is returned to the caller as a value; a
//! failure to deliver it is the deliverer's affair and never terminates
//! the actor.

use vstd::prelude::*;
use crate::queue::Command;
use crate::snapshot::MachineSnapshot;
use crate::telemetry;
use crate::telemetry::frame_spec;
use crate::vm;
use crate::vm::step_outcome;

verus! {

/// The actor's state. `Running` holds the one live snapshot; `Stopped`
/// is the terminal state entered by processing `Exit`.
#[derive(Clone, Copy, PartialEq, Debug)]
pub enum ActorState {
    /// No run is active; the actor waits for commands.
    Idle,
    /// A run is active; the held snapshot is the machine being stepped.
    Running(MachineSnapshot),
    /// The actor has processed `Exit` and accepts nothing any more.
    Stopped,
}

/// The observable effects of processing one command or one cadence tick.
pub struct Response {
    /// The one-shot acknowledgment owed to a `Run` command: `Some(true)`
    /// for accepted, `Some(false)` for rejected because a run is active,
    /// `None` when the input was no `Run` or the actor was stopped.
    pub ack: Option<bool>,
    /// The telemetry frame to publish, present exactly when a step was
    /// executed successfully.
    pub publish: Option<String>,
    /// Whether this input stopped the actor.
    pub terminated: bool,
}

/// The single-worker execution actor.
pub struct Actor {
    /// The current state; at most one snapshot is ever held.
    pub state: ActorState,
}

/// The state after processing one command.
pub open spec fn next_state(s: ActorState, c: Command) -> ActorState {
    match s {
        ActorState::Stopped => ActorState::Stopped,
        ActorState::Idle => match c {
            Command::Exit => ActorState::Stopped,
            Command::Cancel => ActorState::Idle,
            Command::Run(m) => match step_outcome(m) {
                Some(m2) => ActorState::Running(m2),
                None => ActorState::Idle,
            },
        },
        ActorState::Running(held) => match c {
            Command::Exit => ActorState::Stopped,
            Command::Cancel => ActorState::Idle,
            Command::Run(_) => ActorState::Running(held),
        },
    }
}

/// The acknowledgment written while processing one command.
pub open spec fn ack_of(s: ActorState, c: Command) -> Option<bool> {
    match s {
        ActorState::Stopped => None,
        ActorState::Idle => match c {
            Command::Run(_) => Some(true),
            _ => None,
        },
        ActorState::Running(_) => match c {
            Command::Run(_) => Some(false),
            _ => None,
        },
    }
}

/// The telemetry frame published while processing one command.
pub open spec fn publish_of(s: ActorState, c: Command) -> Option<Seq<char>> {
    if s is Idle {
        match c {
            Command::Run(m) => match step_outcome(m) {
                Some(m2) => Some(frame_spec(m2)),
                None => None,
            },
            _ => None,
        }
    } else {
        None
    }
}

/// The state after one cadence tick.
pub open spec fn tick_state(s: ActorState) -> ActorState {
    match s {
        ActorState::Running(m) => match step_outcome(m) {
            Some(m2) => ActorState::Running(m2),
            None => ActorState::Idle,
        },
        _ => s,
    }
}

/// The telemetry frame published by one cadence tick.
pub open spec fn tick_publish(s: ActorState) -> Option<Seq<char>> {
    match s {
        ActorState::Running(m) => match step_outcome(m) {
            Some(m2) => Some(frame_spec(m2)),
            None => None,
        },
        _ => None,
    }
}

impl Actor {
    /// A fresh actor, idle.
    pub fn new() -> (r: Actor)
        ensures
            r.state is Idle,
    {
        Actor { state: ActorState::Idle }
    }

    /// Process one command.
    ///
    /// While idle, `Run` is acknowledged with `true` and one step executes
    /// immediately, before any cadence wait: on success the actor runs the
    /// successor snapshot and publishes its frame, on a halt it stays idle.
    /// A snapshot the engine cannot step within its registers' bounds ends
    /// the run the same way a halt does (see `vm::step_outcome`).
    /// While running, a further `Run` is acknowledged with `false` and the
    /// run in progress is unaffected. `Cancel` while idle is a no-op;
    /// while running it discards the held snapshot. `Exit` stops the actor
    /// for good: a stopped actor acknowledges nothing, publishes nothing
    /// and never changes state again.
    pub fn on_command(&mut self, c: Command) -> (r: Response)
        ensures
            final(self).state == next_state(old(self).state, c),
            r.ack == ack_of(old(self).state, c),
            r.publish matches Some(f) ==> publish_of(old(self).state, c) == Some(f@),
            r.publish is None ==> publish_of(old(self).state, c) is None,
            r.terminated <==> (!(old(self).state is Stopped) && c is Exit),
    {
        match self.state {
            ActorState::Stopped => Response { ack: None, publish: None, terminated: false },
            ActorState::Idle => match c {
                Command::Exit => {
                    self.state = ActorState::Stopped;
                    Response { ack: None, publish: None, terminated: true }
                },
                Command::Cancel => Response { ack: None, publish: None, terminated: false },
                Command::Run(m) => {
                    match vm::step_or_end(&m) {
                        Some(m2) => {
                            let frame = telemetry::frame_snapshot(&m2);
                            self.state = ActorState::Running(m2);
                            Response { ack: Some(true), publish: Some(frame), terminated: false }
                        },
                        None => Response { ack: Some(true), publish: None, terminated: false },
                    }
                },
            },
            ActorState::Running(_) => match c {
                Command::Exit => {
                    self.state = ActorState::Stopped;
                    Response { ack: None, publish: None, terminated: true }
                },
                Command::Cancel => {
                    self.state = ActorState::Idle;
                    Response { ack: None, publish: None, terminated: false }
                },
                Command::Run(_) => Response { ack: Some(false), publish: None, terminated: false },
            },
        }
    }

    /// Execute one cadence tick: while running, step the held snapshot.
    /// On success the successor snapshot is held and its frame returned
    /// for publication; on a halt the run ends and the actor is idle
    /// again — a normal end of run, not a termination of the actor.
    pub fn on_tick(&mut self) -> (r: Option<String>)
        ensures
            final(self).state == tick_state(old(self).state),
            r matches Some(f) ==> tick_publish(old(self).state) == Some(f@),
            r is None ==> tick_publish(old(self).state) is None,
    {
        match self.state {
            ActorState::Running(m) => {
                match vm::step_or_end(&m) {
                    Some(m2) => {
                        let frame = telemetry::frame_snapshot(&m2);
                        self.state = ActorState::Running(m2);
                        Some(frame)
                    },
                    None => {
                        self.state = ActorState::Idle;
                        None
                    },
                }
            },
            _ => None,
        }
    }
}

/// How many runs a state holds live.
pub open spec fn running_count(s: ActorState) -> nat {
    match s {
        ActorState::Running(_) => 1nat,
        _ => 0nat,
    }
}

/// The state a fresh actor reaches after processing a whole command
/// sequence in arrival order.
pub open spec fn state_after(cmds: Seq<Command>) -> ActorState
    decreases cmds.len(),
{
    if cmds.len() == 0 {
        ActorState::Idle
    } else {
        next_state(state_after(cmds.drop_last()), cmds.last())
    }
}

/// For every command sequence, at most one run is live at any instant:
/// the actor is the only holder of a live snapshot, and each of its
/// reachable states holds at most one.
pub proof fn lemma_at_most_one_running(cmds: Seq<Command>)
    ensures
        running_count(state_after(cmds)) <= 1,
{
}

/// A `Cancel` delivered while idle leaves the state unchanged and has no
/// observable effect: no acknowledgment and no publication.
pub proof fn lemma_cancel_while_idle()
    ensures
        next_state(ActorState::Idle, Command::Cancel) == ActorState::Idle,
        ack_of(ActorState::Idle, Command::Cancel) is None,
        publish_of(ActorState::Idle, Command::Cancel) is None,
{
}

/// After `Exit` is processed the actor is stopped, and a stopped actor
/// accepts nothing any more: every further command leaves it stopped,
/// unacknowledged and unpublished.
pub proof fn lemma_exit_is_terminal(s: ActorState, c: Command)
    ensures
        next_state(s, Command::Exit) == ActorState::Stopped,
        next_state(ActorState::Stopped, c) == ActorState::Stopped,
        ack_of(ActorState::Stopped, c) is None,
        publish_of(ActorState::Stopped, c) is None,
{
}

/// A `Run` submitted while another run is active is acknowledged with
/// `false`, and the run in progress keeps its snapshot untouched.
pub proof fn lemma_run_while_running(held: MachineSnapshot, m: MachineSnapshot)
    ensures
        ack_of(ActorState::Running(held), Command::Run(m)) == Some(false),
        next_state(ActorState::Running(held), Command::Run(m)) == ActorState::Running(held),
        publish_of(ActorState::Running(held), Command::Run(m)) is None,
{
}

/// A `Run` submitted while idle is acknowledged with `true`, and one step
/// executes immediately: on success the actor holds the successor
/// snapshot and publishes its frame before any cadence wait elapses.
pub proof fn lemma_run_while_idle(m: MachineSnapshot)
    ensures
        ack_of(ActorState::Idle, Command::Run(m)) == Some(true),
        step_outcome(m) matches Some(m2) ==> {
            &&& next_state(ActorState::Idle, Command::Run(m)) == ActorState::Running(m2)
            &&& publish_of(ActorState::Idle, Command::Run(m)) == Some(frame_spec(m2))
        },
        step_outcome(m) is None ==> next_state(ActorState::Idle, Command::Run(m)) == ActorState::Idle,
{
}

/// A step failure while running returns the actor to idle, not to the
/// terminal state: the next `Run` is acknowledged with `true` again.
pub proof fn lemma_halt_returns_to_idle(held: MachineSnapshot, m: MachineSnapshot)
    requires
        step_outcome(held) is None,
    ensures
        tick_state(ActorState::Running(held)) == ActorState::Idle,
        !(tick_state(ActorState::Running(held)) is Stopped),
        ack_of(tick_state(ActorState::Running(held)), Command::Run(m)) == Some(true),
{
}

} // verus!
