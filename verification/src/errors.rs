use vstd::prelude::*;

verus! {

/// Why a lifecycle operation failed.
///
/// Variants carry the structured context a caller can branch on: the
/// path at which the worker executable was expected, or the
/// operating-system error code of a failed spawn or kill (`None` when
/// the OS reported no code).
#[derive(Debug, Clone, PartialEq, Eq)]
pub enum ConnectorError {
    /// No ephemeral port could be allocated.
    PortAllocationFailed,
    /// The directory that holds the worker executable could not be resolved.
    ResourceLookupFailed,
    /// The resolved executable path does not exist on disk.
    ExecutableNotFound { path: String },
    /// The operating system refused to spawn the worker.
    SpawnFailed { os_error: Option<i32> },
    /// The operating system reported a failure while terminating the worker.
    KillFailed { os_error: Option<i32> },
    /// An event was reported that contradicts the recorded state.
    InconsistentState,
    /// Exclusive access to the shared state could not be acquired.
    LockAcquisitionFailed,
}

impl ConnectorError {
    /// The fixed description of each failure class.
    pub open spec fn message_spec(self) -> Seq<char> {
        match self {
            ConnectorError::PortAllocationFailed => "failed to find an available port"@,
            ConnectorError::ResourceLookupFailed => "failed to resolve the resource directory"@,
            ConnectorError::ExecutableNotFound { .. } => "connector executable not found"@,
            ConnectorError::SpawnFailed { .. } => "failed to start the connector"@,
            ConnectorError::KillFailed { .. } => "failed to kill the connector"@,
            ConnectorError::InconsistentState => "connector state is inconsistent"@,
            ConnectorError::LockAcquisitionFailed => "failed to lock the connector state"@,
        }
    }

    /// A short description of the failure, for the host boundary to
    /// surface beside the variant's own context.
    pub fn message(&self) -> (m: &'static str)
        ensures
            m@ == self.message_spec(),
    {
        match self {
            ConnectorError::PortAllocationFailed => "failed to find an available port",
            ConnectorError::ResourceLookupFailed => "failed to resolve the resource directory",
            ConnectorError::ExecutableNotFound { .. } => "connector executable not found",
            ConnectorError::SpawnFailed { .. } => "failed to start the connector",
            ConnectorError::KillFailed { .. } => "failed to kill the connector",
            ConnectorError::InconsistentState => "connector state is inconsistent",
            ConnectorError::LockAcquisitionFailed => "failed to lock the connector state",
        }
    }
}

} // verus!
