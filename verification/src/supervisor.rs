//! The ingest supervisor state machine.
//!
//! The supervisor owns one subprocess at a time: it spawns it, drains its
//! primary output stream chunk by chunk into the output channel, awaits
//! its exit, and then either restarts it or terminates for good. The
//! blocking work — spawning, reading, waiting, joining the diagnostic
//! drain — happens outside the library; this module holds every decision
//! as a step function from state and event to next state and action, so
//! the restart and shutdown policy is stated and proved here.

use vstd::prelude::*;

verus! {

/// The supervisor's position in one supervision cycle.
#[derive(Clone, Copy, Debug, PartialEq, Eq, Structural)]
pub enum Phase {
    /// No subprocess was ever started.
    Idle,
    /// A spawn was requested and its outcome is awaited.
    Spawning,
    /// The subprocess's primary output stream is being read.
    Draining,
    /// The read loop ended; the subprocess's exit is awaited.
    AwaitingExit,
    /// The subprocess exited without a termination request; the next
    /// spawn is due.
    RestartPending,
    /// Terminal: the supervisor returns success.
    Terminated,
    /// Terminal: the subprocess could not be spawned; the subsystem
    /// aborts.
    Aborted,
}

/// What the outside world reports back to the supervisor.
#[derive(Clone, Copy, Debug, PartialEq, Eq, Structural)]
pub enum Event {
    /// Start (or restart) a subprocess now.
    Launch,
    /// The spawn succeeded; the handle is installed and the diagnostic
    /// drain runs.
    SpawnOk,
    /// The spawn failed.
    SpawnErr,
    /// One blocking read returned this many bytes (zero means clean
    /// end of stream).
    ReadOk(usize),
    /// One blocking read failed.
    ReadErr,
    /// The pending chunk was delivered to the channel.
    SendOk,
    /// The channel rejected the pending chunk: the consumer is gone.
    SendErr,
    /// The subprocess was reaped and the drain joined; the payload is the
    /// termination flag as read after reaping.
    Exited(bool),
}

/// What the supervisor asks the outside world to do next.
#[derive(Clone, Copy, Debug, PartialEq, Eq, Structural)]
pub enum Action {
    /// Spawn the subprocess, install its handle, start the diagnostic
    /// drain; report `SpawnOk` or `SpawnErr`.
    Spawn,
    /// Perform one blocking read of the primary output stream; report
    /// `ReadOk` or `ReadErr`.
    Read,
    /// Send the chunk just read on the output channel; report `SendOk`
    /// or `SendErr`.
    SendChunk,
    /// Clear the running flag, reap the subprocess, join the drain;
    /// report `Exited` with the termination flag.
    AwaitExit,
    /// Set the termination flag and return success at once: the consumer
    /// is gone, so nothing is reaped and nothing restarts.
    SetTerminatedStop,
    /// Return success: a termination request was honored.
    Stop,
    /// Issue `Launch` again for the next cycle.
    Relaunch,
    /// Abort the subsystem: the external binary cannot be started.
    Abort,
}

/// The supervisor's state: its phase and its view of the shared flags
/// and of the handle slot.
#[derive(Clone, Copy, Debug, PartialEq, Eq, Structural)]
pub struct Supervisor {
    /// Position in the supervision cycle.
    pub phase: Phase,
    /// The "server currently producing output" flag: set on the first
    /// successful read of an instance, cleared when its read loop ends.
    pub running: bool,
    /// A chunk was read and is not yet handed to the channel.
    pub pending_send: bool,
    /// The subprocess handle slot is occupied: a subprocess was spawned
    /// and not yet reaped.
    pub handle_held: bool,
}

/// The state before anything happened.
pub open spec fn initial_state() -> Supervisor {
    Supervisor { phase: Phase::Idle, running: false, pending_send: false, handle_held: false }
}

/// Which events the protocol admits in which state: each event answers
/// the action that asked for it.
pub open spec fn event_allowed(s: Supervisor, ev: Event) -> bool {
    match ev {
        Event::Launch => s.phase == Phase::Idle || s.phase == Phase::RestartPending,
        Event::SpawnOk | Event::SpawnErr => s.phase == Phase::Spawning,
        Event::ReadOk(_) | Event::ReadErr => s.phase == Phase::Draining && !s.pending_send,
        Event::SendOk | Event::SendErr => s.phase == Phase::Draining && s.pending_send,
        Event::Exited(_) => s.phase == Phase::AwaitingExit,
    }
}

/// The transition table: the next state and the next action for every
/// admitted state and event.
pub open spec fn spec_step(s: Supervisor, ev: Event) -> (Supervisor, Action) {
    match ev {
        Event::Launch => (Supervisor { phase: Phase::Spawning, ..s }, Action::Spawn),
        Event::SpawnOk => (
            Supervisor {
                phase: Phase::Draining,
                running: false,
                pending_send: false,
                handle_held: true,
            },
            Action::Read,
        ),
        Event::SpawnErr => (Supervisor { phase: Phase::Aborted, ..s }, Action::Abort),
        Event::ReadOk(n) => if n > 0 {
            (Supervisor { running: true, pending_send: true, ..s }, Action::SendChunk)
        } else {
            (Supervisor { phase: Phase::AwaitingExit, running: false, ..s }, Action::AwaitExit)
        },
        Event::ReadErr => (
            Supervisor { phase: Phase::AwaitingExit, running: false, ..s },
            Action::AwaitExit,
        ),
        Event::SendOk => (Supervisor { pending_send: false, ..s }, Action::Read),
        Event::SendErr => (
            Supervisor { phase: Phase::Terminated, pending_send: false, ..s },
            Action::SetTerminatedStop,
        ),
        Event::Exited(terminated) => if terminated {
            (Supervisor { phase: Phase::Terminated, handle_held: false, ..s }, Action::Stop)
        } else {
            (Supervisor { phase: Phase::RestartPending, handle_held: false, ..s }, Action::Relaunch)
        },
    }
}

impl Supervisor {
    /// The state invariant: the handle slot is occupied exactly from a
    /// successful spawn until the reap — it survives into `Terminated`
    /// only on the consumer-gone path, where nothing is reaped — and a
    /// chunk can be pending only while draining.
    pub open spec fn wf(self) -> bool {
        &&& (self.phase == Phase::Draining || self.phase == Phase::AwaitingExit)
            ==> self.handle_held
        &&& self.handle_held ==> (self.phase == Phase::Draining || self.phase
            == Phase::AwaitingExit || self.phase == Phase::Terminated)
        &&& self.pending_send ==> self.phase == Phase::Draining
        &&& (self.phase == Phase::Idle || self.phase == Phase::Spawning || self.phase
            == Phase::AwaitingExit || self.phase == Phase::RestartPending || self.phase
            == Phase::Aborted) ==> !self.running
    }

    /// A fresh supervisor, before its first launch.
    pub fn new() -> (s: Supervisor)
        ensures
            s == initial_state(),
            s.wf(),
    {
        Supervisor { phase: Phase::Idle, running: false, pending_send: false, handle_held: false }
    }

    /// Advances the machine by one event and returns the action the
    /// driver must perform next. The transition is exactly the one the
    /// table [`spec_step`] gives.
    pub fn step(&mut self, ev: Event) -> (a: Action)
        requires
            event_allowed(*old(self), ev),
        ensures
            (*final(self), a) == spec_step(*old(self), ev),
    {
        match ev {
            Event::Launch => {
                self.phase = Phase::Spawning;
                Action::Spawn
            },
            Event::SpawnOk => {
                self.phase = Phase::Draining;
                self.running = false;
                self.pending_send = false;
                self.handle_held = true;
                Action::Read
            },
            Event::SpawnErr => {
                self.phase = Phase::Aborted;
                Action::Abort
            },
            Event::ReadOk(n) => {
                if n > 0 {
                    self.running = true;
                    self.pending_send = true;
                    Action::SendChunk
                } else {
                    self.phase = Phase::AwaitingExit;
                    self.running = false;
                    Action::AwaitExit
                }
            },
            Event::ReadErr => {
                self.phase = Phase::AwaitingExit;
                self.running = false;
                Action::AwaitExit
            },
            Event::SendOk => {
                self.pending_send = false;
                Action::Read
            },
            Event::SendErr => {
                self.phase = Phase::Terminated;
                self.pending_send = false;
                Action::SetTerminatedStop
            },
            Event::Exited(terminated) => {
                self.handle_held = false;
                if terminated {
                    self.phase = Phase::Terminated;
                    Action::Stop
                } else {
                    self.phase = Phase::RestartPending;
                    Action::Relaunch
                }
            },
        }
    }

    /// Whether the machine reached a terminal phase.
    pub fn is_finished(&self) -> (r: bool)
        ensures
            r == (self.phase == Phase::Terminated || self.phase == Phase::Aborted),
    {
        match self.phase {
            Phase::Terminated => true,
            Phase::Aborted => true,
            _ => false,
        }
    }
}

/// Every admitted step preserves the state invariant: in particular the
/// handle slot is occupied only between a spawn and the matching reap.
pub proof fn lemma_step_preserves_wf(s: Supervisor, ev: Event)
    requires
        s.wf(),
        event_allowed(s, ev),
    ensures
        spec_step(s, ev).0.wf(),
{
}

/// A terminal phase admits no further event: once terminated or aborted,
/// the supervisor never spawns, reads or restarts again.
pub proof fn lemma_terminal_admits_nothing(s: Supervisor, ev: Event)
    requires
        s.phase == Phase::Terminated || s.phase == Phase::Aborted,
    ensures
        !event_allowed(s, ev),
{
}

/// A termination request set before the current instance exits is
/// honored: once that instance is reaped, the supervisor stops with
/// success and performs no further restart.
pub proof fn lemma_termination_request_honored(s: Supervisor, ev: Event)
    requires
        s.wf(),
        s.phase == Phase::AwaitingExit,
    ensures
        spec_step(s, Event::Exited(true)).0.phase == Phase::Terminated,
        spec_step(s, Event::Exited(true)).1 == Action::Stop,
        !event_allowed(spec_step(s, Event::Exited(true)).0, ev),
{
}

/// Without a termination request, a subprocess exit is never final: once
/// the instance is reaped the supervisor moves to the restart state and
/// asks to be launched again.
pub proof fn lemma_restart_without_request(s: Supervisor)
    requires
        s.wf(),
        s.phase == Phase::AwaitingExit,
    ensures
        spec_step(s, Event::Exited(false)).0.phase == Phase::RestartPending,
        spec_step(s, Event::Exited(false)).1 == Action::Relaunch,
        event_allowed(spec_step(s, Event::Exited(false)).0, Event::Launch),
{
}

/// A channel send failure terminates the whole supervision loop at once:
/// the termination flag is set, the supervisor stops with success, and no
/// further read, reap or restart happens, whatever data was still
/// buffered.
pub proof fn lemma_send_failure_terminates(s: Supervisor, ev: Event)
    requires
        s.wf(),
        s.phase == Phase::Draining,
        s.pending_send,
    ensures
        spec_step(s, Event::SendErr).0.phase == Phase::Terminated,
        spec_step(s, Event::SendErr).1 == Action::SetTerminatedStop,
        !event_allowed(spec_step(s, Event::SendErr).0, ev),
{
}

/// The running flag follows each instance's read loop, whatever the
/// restart count: it turns true on a successful non-empty read, and it
/// is false as soon as that instance's read loop ends — after a clean
/// end of stream, a read error, or the reap.
pub proof fn lemma_running_flag(s: Supervisor, n: usize)
    requires
        s.wf(),
        s.phase == Phase::Draining,
        !s.pending_send,
    ensures
        n > 0 ==> spec_step(s, Event::ReadOk(n)).0.running,
        n == 0 ==> !spec_step(s, Event::ReadOk(n)).0.running,
        !spec_step(s, Event::ReadErr).0.running,
{
}

/// Immediately after a spawn the new instance does not yet count as
/// running: the flag turns true only once data flows.
pub proof fn lemma_fresh_instance_not_running(s: Supervisor)
    requires
        s.wf(),
        s.phase == Phase::Spawning,
    ensures
        !spec_step(s, Event::SpawnOk).0.running,
{
}

} // verus!
