use pilotlife_connector::errors::ConnectorError;
use pilotlife_connector::supervisor::{
    ConnectorSupervisor, KillOutcome, LookupOutcome, SpawnOutcome, StartAction, StartEvent,
    StopAction, StopEvent,
};

/// Drives a full, successful start and hands back the supervisor.
fn start_running(sup: &mut ConnectorSupervisor, process_id: u32, port: u16) {
    let a = sup.start_step(StartEvent::Requested);
    assert_eq!(a, StartAction::AllocatePort);
    let a = sup.start_step(StartEvent::PortAllocated { port: Some(port) });
    assert_eq!(a, StartAction::LocateExecutable { port });
    let a = sup.start_step(StartEvent::ExecutableLookup {
        port,
        outcome: LookupOutcome::Found {
            path: String::from("/opt/pilotlife/PilotLife.Connector.exe"),
        },
    });
    assert_eq!(
        a,
        StartAction::Launch {
            port,
            path: String::from("/opt/pilotlife/PilotLife.Connector.exe"),
        }
    );
    let a = sup.start_step(StartEvent::SpawnFinished {
        port,
        outcome: SpawnOutcome::Spawned { process_id },
    });
    assert_eq!(a, StartAction::Committed { port });
}

#[test]
fn start_sequence_commits_and_reports_port() {
    let mut sup = ConnectorSupervisor::new();
    assert_eq!(sup.port(), None);
    assert!(!sup.is_running());
    start_running(&mut sup, 4242, 18500);
    assert_eq!(sup.port(), Some(18500));
    assert!(sup.is_running());
}

#[test]
fn start_twice_returns_same_port_without_second_spawn() {
    let mut sup = ConnectorSupervisor::new();
    start_running(&mut sup, 4242, 18500);
    // The second start is answered from the recorded state: no
    // allocation, no lookup, no launch is ever requested again.
    let a = sup.start_step(StartEvent::Requested);
    assert_eq!(a, StartAction::UseExisting { port: 18500 });
    let a = sup.start_step(StartEvent::Requested);
    assert_eq!(a, StartAction::UseExisting { port: 18500 });
    assert_eq!(sup.port(), Some(18500));
    assert!(sup.is_running());
}

#[test]
fn stop_when_never_started_is_noop_success() {
    let mut sup = ConnectorSupervisor::new();
    let a = sup.stop_step(StopEvent::Requested);
    assert_eq!(a, StopAction::Finished);
    assert!(!sup.is_running());
    assert_eq!(sup.port(), None);
}

#[test]
fn start_then_stop_clears_state() {
    let mut sup = ConnectorSupervisor::new();
    start_running(&mut sup, 777, 20123);
    let a = sup.stop_step(StopEvent::Requested);
    // The stop asks to kill the very process the start recorded.
    assert_eq!(a, StopAction::Kill { process_id: 777 });
    let a = sup.stop_step(StopEvent::KillFinished {
        outcome: KillOutcome::Killed,
    });
    assert_eq!(a, StopAction::Finished);
    assert!(!sup.is_running());
    assert_eq!(sup.port(), None);
}

#[test]
fn kill_failure_still_clears_state() {
    let mut sup = ConnectorSupervisor::new();
    start_running(&mut sup, 777, 20123);
    let a = sup.stop_step(StopEvent::Requested);
    assert_eq!(a, StopAction::Kill { process_id: 777 });
    let a = sup.stop_step(StopEvent::KillFinished {
        outcome: KillOutcome::Failed { os_error: Some(3) },
    });
    // The caller learns of the failure, but no stale handle survives.
    assert_eq!(
        a,
        StopAction::Failed {
            error: ConnectorError::KillFailed { os_error: Some(3) },
        }
    );
    assert!(!sup.is_running());
    assert_eq!(sup.port(), None);
}

#[test]
fn forced_cleanup_clears_state_quietly() {
    let mut sup = ConnectorSupervisor::new();
    start_running(&mut sup, 91, 19000);
    assert!(sup.is_running());
    // The shutdown hook's path: no result to propagate, state cleared.
    sup.force_clear();
    assert!(!sup.is_running());
    assert_eq!(sup.port(), None);
}

#[test]
fn forced_cleanup_when_stopped_is_harmless() {
    let mut sup = ConnectorSupervisor::new();
    sup.force_clear();
    assert!(!sup.is_running());
    assert_eq!(sup.port(), None);
}

#[test]
fn missing_executable_rejects_and_leaves_state_clear() {
    let mut sup = ConnectorSupervisor::new();
    let a = sup.start_step(StartEvent::Requested);
    assert_eq!(a, StartAction::AllocatePort);
    let a = sup.start_step(StartEvent::PortAllocated { port: Some(18500) });
    assert_eq!(a, StartAction::LocateExecutable { port: 18500 });
    let a = sup.start_step(StartEvent::ExecutableLookup {
        port: 18500,
        outcome: LookupOutcome::Missing {
            path: String::from("/opt/pilotlife/PilotLife.Connector.exe"),
        },
    });
    assert_eq!(
        a,
        StartAction::Rejected {
            error: ConnectorError::ExecutableNotFound {
                path: String::from("/opt/pilotlife/PilotLife.Connector.exe"),
            },
        }
    );
    assert!(!sup.is_running());
    assert_eq!(sup.port(), None);
}

#[test]
fn port_allocation_failure_rejected() {
    let mut sup = ConnectorSupervisor::new();
    let a = sup.start_step(StartEvent::Requested);
    assert_eq!(a, StartAction::AllocatePort);
    let a = sup.start_step(StartEvent::PortAllocated { port: None });
    assert_eq!(
        a,
        StartAction::Rejected {
            error: ConnectorError::PortAllocationFailed,
        }
    );
    assert!(!sup.is_running());
    assert_eq!(sup.port(), None);
}

#[test]
fn resource_lookup_failure_rejected() {
    let mut sup = ConnectorSupervisor::new();
    sup.start_step(StartEvent::Requested);
    sup.start_step(StartEvent::PortAllocated { port: Some(18500) });
    let a = sup.start_step(StartEvent::ExecutableLookup {
        port: 18500,
        outcome: LookupOutcome::DirUnresolved,
    });
    assert_eq!(
        a,
        StartAction::Rejected {
            error: ConnectorError::ResourceLookupFailed,
        }
    );
    assert!(!sup.is_running());
    assert_eq!(sup.port(), None);
}

#[test]
fn spawn_failure_rejected_with_os_error() {
    let mut sup = ConnectorSupervisor::new();
    sup.start_step(StartEvent::Requested);
    sup.start_step(StartEvent::PortAllocated { port: Some(18500) });
    let a = sup.start_step(StartEvent::SpawnFinished {
        port: 18500,
        outcome: SpawnOutcome::Failed { os_error: Some(13) },
    });
    assert_eq!(
        a,
        StartAction::Rejected {
            error: ConnectorError::SpawnFailed { os_error: Some(13) },
        }
    );
    assert!(!sup.is_running());
    assert_eq!(sup.port(), None);
}

#[test]
fn inconsistent_event_rejected_defensively() {
    let mut sup = ConnectorSupervisor::new();
    start_running(&mut sup, 8, 17000);
    // An allocation outcome while a worker runs contradicts the
    // recorded state: it is refused and the state stands.
    let a = sup.start_step(StartEvent::PortAllocated { port: Some(9999) });
    assert_eq!(
        a,
        StartAction::Rejected {
            error: ConnectorError::InconsistentState,
        }
    );
    assert_eq!(sup.port(), Some(17000));
    assert!(sup.is_running());
}

#[test]
fn port_and_running_agree_across_sequence() {
    let mut sup = ConnectorSupervisor::new();
    assert_eq!(sup.port().is_some(), sup.is_running());
    sup.start_step(StartEvent::Requested);
    assert_eq!(sup.port().is_some(), sup.is_running());
    sup.start_step(StartEvent::PortAllocated { port: Some(15000) });
    assert_eq!(sup.port().is_some(), sup.is_running());
    sup.start_step(StartEvent::SpawnFinished {
        port: 15000,
        outcome: SpawnOutcome::Spawned { process_id: 3 },
    });
    assert_eq!(sup.port().is_some(), sup.is_running());
    sup.stop_step(StopEvent::Requested);
    assert_eq!(sup.port().is_some(), sup.is_running());
    sup.stop_step(StopEvent::KillFinished {
        outcome: KillOutcome::Killed,
    });
    assert_eq!(sup.port().is_some(), sup.is_running());
}

#[test]
fn error_messages_describe_each_failure() {
    assert_eq!(
        ConnectorError::PortAllocationFailed.message(),
        "failed to find an available port"
    );
    assert_eq!(
        ConnectorError::ResourceLookupFailed.message(),
        "failed to resolve the resource directory"
    );
    assert_eq!(
        ConnectorError::ExecutableNotFound {
            path: String::from("/x/y"),
        }
        .message(),
        "connector executable not found"
    );
    assert_eq!(
        ConnectorError::SpawnFailed { os_error: None }.message(),
        "failed to start the connector"
    );
    assert_eq!(
        ConnectorError::KillFailed { os_error: Some(1) }.message(),
        "failed to kill the connector"
    );
    assert_eq!(
        ConnectorError::InconsistentState.message(),
        "connector state is inconsistent"
    );
    assert_eq!(
        ConnectorError::LockAcquisitionFailed.message(),
        "failed to lock the connector state"
    );
}
