use vstd::prelude::*;

use crate::errors::ConnectorError;
use crate::state::ConnectorState;

verus! {

/// What the start flow learned from the outside world.
#[derive(Debug, Clone, PartialEq, Eq)]
pub enum StartEvent {
    /// A caller asked for the connector to be started.
    Requested,
    /// The attempt to allocate an ephemeral port finished.
    PortAllocated { port: Option<u16> },
    /// The attempt to locate the worker executable finished.
    ExecutableLookup { port: u16, outcome: LookupOutcome },
    /// The attempt to spawn the worker finished.
    SpawnFinished { port: u16, outcome: SpawnOutcome },
}

/// How the search for the worker executable ended.
#[derive(Debug, Clone, PartialEq, Eq)]
pub enum LookupOutcome {
    /// The executable stands at `path`.
    Found { path: String },
    /// The resource directory could not be resolved.
    DirUnresolved,
    /// The resolved path does not exist on disk.
    Missing { path: String },
}

/// How the attempt to spawn the worker ended.
#[derive(Debug, Clone, PartialEq, Eq)]
pub enum SpawnOutcome {
    /// The worker is alive under the given OS process id.
    Spawned { process_id: u32 },
    /// The operating system refused the spawn.
    Failed { os_error: Option<i32> },
}

/// What the supervisor asks its driver to do next during a start.
#[derive(Debug, Clone, PartialEq, Eq)]
pub enum StartAction {
    /// A worker already runs on this port: answer the caller with it
    /// and spawn nothing.
    UseExisting { port: u16 },
    /// Allocate an ephemeral port and report `PortAllocated`.
    AllocatePort,
    /// Locate the worker executable and report `ExecutableLookup`,
    /// carrying this port along.
    LocateExecutable { port: u16 },
    /// Spawn `path` with the argument pair `--port <port>` and report
    /// `SpawnFinished`.
    Launch { port: u16, path: String },
    /// The new worker is recorded: answer the caller with its port.
    Committed { port: u16 },
    /// The start failed: answer the caller with this error. Nothing was
    /// recorded.
    Rejected { error: ConnectorError },
}

/// What the stop flow learned from the outside world.
#[derive(Debug, Clone, PartialEq, Eq)]
pub enum StopEvent {
    /// A caller asked for the connector to be stopped.
    Requested,
    /// The attempt to terminate and reap the worker finished.
    KillFinished { outcome: KillOutcome },
}

/// How the attempt to terminate the worker ended.
#[derive(Debug, Clone, PartialEq, Eq)]
pub enum KillOutcome {
    /// The worker was signalled and reaped.
    Killed,
    /// The operating system reported a termination failure.
    Failed { os_error: Option<i32> },
}

/// What the supervisor asks its driver to do next during a stop.
#[derive(Debug, Clone, PartialEq, Eq)]
pub enum StopAction {
    /// Terminate the worker with this process id, reap it, and report
    /// `KillFinished`.
    Kill { process_id: u32 },
    /// The stop is complete: nothing is recorded any more.
    Finished,
    /// The stop failed with this error; the recorded state was cleared
    /// regardless.
    Failed { error: ConnectorError },
}

/// One transition of the start flow: from the recorded state and an
/// event, the state afterwards and the next action for the driver.
///
/// Only a reported successful spawn changes the state; every rejection
/// leaves it as it was. An event that contradicts the recorded state
/// (an outcome reported while a worker already runs) is refused
/// defensively with `InconsistentState`.
pub open spec fn start_transition(s: ConnectorState, ev: StartEvent) -> (ConnectorState, StartAction) {
    match ev {
        StartEvent::Requested => match s {
            ConnectorState::Running { port, .. } => (s, StartAction::UseExisting { port }),
            ConnectorState::Stopped => (s, StartAction::AllocatePort),
        },
        StartEvent::PortAllocated { port } => match s {
            ConnectorState::Running { .. } => (
                s,
                StartAction::Rejected { error: ConnectorError::InconsistentState },
            ),
            ConnectorState::Stopped => match port {
                Some(p) => (s, StartAction::LocateExecutable { port: p }),
                None => (s, StartAction::Rejected { error: ConnectorError::PortAllocationFailed }),
            },
        },
        StartEvent::ExecutableLookup { port, outcome } => match s {
            ConnectorState::Running { .. } => (
                s,
                StartAction::Rejected { error: ConnectorError::InconsistentState },
            ),
            ConnectorState::Stopped => match outcome {
                LookupOutcome::Found { path } => (s, StartAction::Launch { port, path }),
                LookupOutcome::DirUnresolved => (
                    s,
                    StartAction::Rejected { error: ConnectorError::ResourceLookupFailed },
                ),
                LookupOutcome::Missing { path } => (
                    s,
                    StartAction::Rejected { error: ConnectorError::ExecutableNotFound { path } },
                ),
            },
        },
        StartEvent::SpawnFinished { port, outcome } => match s {
            ConnectorState::Running { .. } => (
                s,
                StartAction::Rejected { error: ConnectorError::InconsistentState },
            ),
            ConnectorState::Stopped => match outcome {
                SpawnOutcome::Spawned { process_id } => (
                    ConnectorState::Running { process_id, port },
                    StartAction::Committed { port },
                ),
                SpawnOutcome::Failed { os_error } => (
                    s,
                    StartAction::Rejected { error: ConnectorError::SpawnFailed { os_error } },
                ),
            },
        },
    }
}

/// One transition of the stop flow.
///
/// A stop on a stopped supervisor finishes at once. Once a kill outcome
/// is reported the state is cleared whatever that outcome was: a stop
/// attempt never leaves a stale handle behind, and only the action
/// tells the caller whether the termination itself failed.
pub open spec fn stop_transition(s: ConnectorState, ev: StopEvent) -> (ConnectorState, StopAction) {
    match ev {
        StopEvent::Requested => match s {
            ConnectorState::Running { process_id, .. } => (s, StopAction::Kill { process_id }),
            ConnectorState::Stopped => (s, StopAction::Finished),
        },
        StopEvent::KillFinished { outcome } => match outcome {
            KillOutcome::Killed => (ConnectorState::Stopped, StopAction::Finished),
            KillOutcome::Failed { os_error } => (
                ConnectorState::Stopped,
                StopAction::Failed { error: ConnectorError::KillFailed { os_error } },
            ),
        },
    }
}

/// Orchestrates start, stop, and status over the recorded state, and
/// enforces the singleton semantics: at most one worker is ever
/// recorded, and a start while one runs reuses it.
///
/// The supervisor holds no OS handles. Its driver serialises access,
/// performs the port allocation, executable lookup, spawn, and kill,
/// reports each outcome as an event, and carries out the action handed
/// back; every decision is taken — and verified — here.
pub struct ConnectorSupervisor {
    status: ConnectorState,
}

impl View for ConnectorSupervisor {
    type V = ConnectorState;

    closed spec fn view(&self) -> ConnectorState {
        self.status
    }
}

impl ConnectorSupervisor {
    /// A fresh supervisor: nothing runs and no port is recorded.
    pub fn new() -> (s: ConnectorSupervisor)
        ensures
            s@ == ConnectorState::Stopped,
    {
        ConnectorSupervisor { status: ConnectorState::Stopped }
    }

    /// The port the running worker listens on, or `None` when none runs.
    pub fn port(&self) -> (p: Option<u16>)
        ensures
            p == self@.port(),
    {
        match self.status {
            ConnectorState::Running { port, .. } => Some(port),
            ConnectorState::Stopped => None,
        }
    }

    /// Whether a worker process is currently recorded.
    pub fn is_running(&self) -> (r: bool)
        ensures
            r == self@.is_running(),
    {
        match self.status {
            ConnectorState::Running { .. } => true,
            ConnectorState::Stopped => false,
        }
    }

    /// Feed one event of the start flow and learn the next action,
    /// exactly as `start_transition` lays it down.
    pub fn start_step(&mut self, ev: StartEvent) -> (action: StartAction)
        ensures
            final(self)@ == start_transition(old(self)@, ev).0,
            action == start_transition(old(self)@, ev).1,
    {
        match ev {
            StartEvent::Requested => match self.status {
                ConnectorState::Running { port, .. } => StartAction::UseExisting { port },
                ConnectorState::Stopped => StartAction::AllocatePort,
            },
            StartEvent::PortAllocated { port } => match self.status {
                ConnectorState::Running { .. } => StartAction::Rejected {
                    error: ConnectorError::InconsistentState,
                },
                ConnectorState::Stopped => match port {
                    Some(p) => StartAction::LocateExecutable { port: p },
                    None => StartAction::Rejected {
                        error: ConnectorError::PortAllocationFailed,
                    },
                },
            },
            StartEvent::ExecutableLookup { port, outcome } => match self.status {
                ConnectorState::Running { .. } => StartAction::Rejected {
                    error: ConnectorError::InconsistentState,
                },
                ConnectorState::Stopped => match outcome {
                    LookupOutcome::Found { path } => StartAction::Launch { port, path },
                    LookupOutcome::DirUnresolved => StartAction::Rejected {
                        error: ConnectorError::ResourceLookupFailed,
                    },
                    LookupOutcome::Missing { path } => StartAction::Rejected {
                        error: ConnectorError::ExecutableNotFound { path },
                    },
                },
            },
            StartEvent::SpawnFinished { port, outcome } => match self.status {
                ConnectorState::Running { .. } => StartAction::Rejected {
                    error: ConnectorError::InconsistentState,
                },
                ConnectorState::Stopped => match outcome {
                    SpawnOutcome::Spawned { process_id } => {
                        self.status = ConnectorState::Running { process_id, port };
                        StartAction::Committed { port }
                    },
                    SpawnOutcome::Failed { os_error } => StartAction::Rejected {
                        error: ConnectorError::SpawnFailed { os_error },
                    },
                },
            },
        }
    }

    /// Feed one event of the stop flow and learn the next action,
    /// exactly as `stop_transition` lays it down.
    pub fn stop_step(&mut self, ev: StopEvent) -> (action: StopAction)
        ensures
            final(self)@ == stop_transition(old(self)@, ev).0,
            action == stop_transition(old(self)@, ev).1,
    {
        match ev {
            StopEvent::Requested => match self.status {
                ConnectorState::Running { process_id, .. } => StopAction::Kill { process_id },
                ConnectorState::Stopped => StopAction::Finished,
            },
            StopEvent::KillFinished { outcome } => {
                self.status = ConnectorState::Stopped;
                match outcome {
                    KillOutcome::Killed => StopAction::Finished,
                    KillOutcome::Failed { os_error } => StopAction::Failed {
                        error: ConnectorError::KillFailed { os_error },
                    },
                }
            },
        }
    }

    /// Forced cleanup for the host's shutdown path: clears the recorded
    /// state unconditionally and can surface no error. The driver
    /// terminates and reaps whatever worker it still holds; teardown
    /// must never fail the host's exit.
    pub fn force_clear(&mut self)
        ensures
            final(self)@ == ConnectorState::Stopped,
    {
        self.status = ConnectorState::Stopped;
    }
}

} // verus!
