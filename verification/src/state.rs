use vstd::prelude::*;

verus! {

/// The recorded lifecycle state of the connector worker.
///
/// A process and its port are recorded together or not at all: the type
/// has no value in which one is present without the other.
#[derive(Debug, Clone, Copy, PartialEq, Eq)]
pub enum ConnectorState {
    /// No worker process is recorded.
    Stopped,
    /// A worker with the given OS process id listens on `port`.
    Running { process_id: u32, port: u16 },
}

impl ConnectorState {
    /// The port the recorded worker was started with, if one runs.
    pub open spec fn port(self) -> Option<u16> {
        match self {
            ConnectorState::Stopped => None,
            ConnectorState::Running { port, .. } => Some(port),
        }
    }

    /// Whether a worker process is recorded.
    pub open spec fn is_running(self) -> bool {
        self is Running
    }
}

} // verus!
