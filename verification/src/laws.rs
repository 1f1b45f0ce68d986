use vstd::prelude::*;

use crate::state::ConnectorState;
use crate::supervisor::{
    start_transition, stop_transition, KillOutcome, SpawnOutcome, StartAction, StartEvent,
    StopAction, StopEvent,
};

verus! {

/// A port is recorded exactly when a process is. The state type has no
/// other values, so this holds after any sequence of start and stop
/// transitions.
pub proof fn lemma_port_iff_running(s: ConnectorState)
    ensures
        s.port() is Some <==> s.is_running(),
{
}

/// Starting while a worker runs answers the recorded port and asks for
/// no allocation, lookup, or launch: a second start without an
/// intervening stop changes nothing and spawns nothing.
pub proof fn lemma_start_idempotent(process_id: u32, port: u16)
    ensures
        ({
            let s = ConnectorState::Running { process_id, port };
            start_transition(s, StartEvent::Requested) == (s, StartAction::UseExisting { port })
        }),
{
}

/// The state a start sequence has reached after the first worker was
/// recorded and `n` further start requests were served in turn.
pub open spec fn replay_start_requests(s: ConnectorState, n: nat) -> ConnectorState
    decreases n,
{
    if n == 0 {
        s
    } else {
        start_transition(replay_start_requests(s, (n - 1) as nat), StartEvent::Requested).0
    }
}

/// Start requests serialised after a worker was recorded — however many
/// callers there are — leave the state untouched, and every one of them
/// is answered the same port: a single spawn serves them all.
pub proof fn lemma_serialized_starts_share_one_worker(process_id: u32, port: u16, n: nat)
    ensures
        ({
            let s = ConnectorState::Running { process_id, port };
            &&& replay_start_requests(s, n) == s
            &&& forall|k: nat|
                k < n ==> start_transition(replay_start_requests(s, k), StartEvent::Requested).1
                    == (StartAction::UseExisting { port })
        }),
    decreases n,
{
    if n > 0 {
        lemma_serialized_starts_share_one_worker(process_id, port, (n - 1) as nat);
    }
}

/// Stopping when nothing runs — in particular when nothing was ever
/// started — succeeds at once and leaves the state as it was.
pub proof fn lemma_stop_when_stopped(s: ConnectorState)
    requires
        !s.is_running(),
    ensures
        stop_transition(s, StopEvent::Requested) == (s, StopAction::Finished),
{
}

/// A successful start followed at once by a stop: the stop asks to kill
/// the very process the start recorded, and once the kill is reported
/// the state holds no process and no port.
pub proof fn lemma_start_then_stop(process_id: u32, port: u16)
    ensures
        ({
            let started = start_transition(
                ConnectorState::Stopped,
                StartEvent::SpawnFinished { port, outcome: SpawnOutcome::Spawned { process_id } },
            ).0;
            let cleared = stop_transition(
                started,
                StopEvent::KillFinished { outcome: KillOutcome::Killed },
            );
            &&& stop_transition(started, StopEvent::Requested)
                == (started, StopAction::Kill { process_id })
            &&& cleared.0.port() is None
            &&& !cleared.0.is_running()
            &&& cleared.1 == StopAction::Finished
        }),
{
}

/// Whatever the reported kill outcome, a stop clears the recorded
/// state: no stale handle survives a stop attempt, even a failed one.
/// Only the action tells the caller whether the termination succeeded.
pub proof fn lemma_stop_always_clears(s: ConnectorState, outcome: KillOutcome)
    ensures
        stop_transition(s, StopEvent::KillFinished { outcome }).0 == ConnectorState::Stopped,
        stop_transition(s, StopEvent::KillFinished { outcome }).1 == StopAction::Finished
            <==> outcome is Killed,
{
}

/// A start that is rejected — for whatever reason, on whatever step —
/// leaves the state exactly as it was: no failing path records
/// anything.
pub proof fn lemma_rejected_start_changes_nothing(s: ConnectorState, ev: StartEvent)
    ensures
        start_transition(s, ev).1 is Rejected ==> start_transition(s, ev).0 == s,
{
}

} // verus!
