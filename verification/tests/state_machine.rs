//! The reconciliation planner: the decision table, idempotence, transient
//! failures, the policy override, and the end-to-end scenarios.

use halldyll_starter::runpod_state::{
    PlannedAction, PodDesiredStatus, PodId, RemoteObservation, RemotePodSnapshot, RunPodState,
    StatePolicy, TargetStatus, STATE_FORMAT_VERSION,
};

fn snapshot(id: &str, name: &str, status: PodDesiredStatus, at_ms: u64) -> RemotePodSnapshot {
    RemotePodSnapshot {
        id: PodId::new(id.to_string()),
        name: name.to_string(),
        desired_status: status,
        observed_at_ms: at_ms,
    }
}

fn base_state() -> RunPodState {
    RunPodState::new("halldyll-pod".to_string(), 100)
}

#[test]
fn new_state_has_defaults() {
    let st = base_state();
    assert_eq!(st.format_version, STATE_FORMAT_VERSION);
    assert_eq!(st.pod_name, "halldyll-pod");
    assert!(st.pod_id.is_none());
    assert_eq!(st.target, TargetStatus::Running);
    assert!(st.last_remote.is_none());
    assert_eq!(st.last_updated_ms, 100);
    assert!(st.policy.reuse_exited_pod);
    assert!(st.policy.auto_terminate_after_exited_ms.is_none());
}

#[test]
fn is_terminal_only_for_terminated() {
    assert!(!PodDesiredStatus::Running.is_terminal());
    assert!(!PodDesiredStatus::Exited.is_terminal());
    assert!(PodDesiredStatus::Terminated.is_terminal());
}

#[test]
fn set_target_updates_target_and_timestamp() {
    let mut st = base_state();
    st.set_target(TargetStatus::Exited, 200);
    assert_eq!(st.target, TargetStatus::Exited);
    assert_eq!(st.last_updated_ms, 200);
}

#[test]
fn apply_created_remembers_id() {
    let mut st = base_state();
    st.apply_created(PodId::new("p1".to_string()), 150);
    assert_eq!(st.pod_id, Some(PodId::new("p1".to_string())));
    assert_eq!(st.last_updated_ms, 150);
}

#[test]
fn apply_terminated_forgets_everything() {
    let mut st = base_state();
    st.apply_created(PodId::new("p1".to_string()), 150);
    st.apply_terminated(300);
    assert!(st.pod_id.is_none());
    assert!(st.last_remote.is_none());
    assert_eq!(st.last_updated_ms, 300);
}

// --- the decision table, row by row ---

#[test]
fn row_terminated_absent_is_noop() {
    let mut st = base_state();
    st.set_target(TargetStatus::Terminated, 110);
    let action = st.reconcile(RemoteObservation::NotFound, 120);
    assert_eq!(action, PlannedAction::Noop);
}

#[test]
fn row_terminated_terminated_is_noop() {
    let mut st = base_state();
    st.set_target(TargetStatus::Terminated, 110);
    let obs = RemoteObservation::Found(snapshot("p1", "halldyll-pod", PodDesiredStatus::Terminated, 120));
    let action = st.reconcile(obs, 120);
    assert_eq!(action, PlannedAction::Noop);
}

#[test]
fn row_running_running_is_noop() {
    let mut st = base_state();
    let obs = RemoteObservation::Found(snapshot("p1", "halldyll-pod", PodDesiredStatus::Running, 120));
    let action = st.reconcile(obs, 120);
    assert_eq!(action, PlannedAction::Noop);
    assert_eq!(st.pod_id, Some(PodId::new("p1".to_string())));
}

#[test]
fn row_exited_exited_is_noop() {
    let mut st = base_state();
    st.set_target(TargetStatus::Exited, 110);
    let obs = RemoteObservation::Found(snapshot("p1", "halldyll-pod", PodDesiredStatus::Exited, 120));
    let action = st.reconcile(obs, 120);
    assert_eq!(action, PlannedAction::Noop);
}

#[test]
fn row_running_absent_is_create() {
    let mut st = base_state();
    let action = st.reconcile(RemoteObservation::NotFound, 120);
    assert_eq!(action, PlannedAction::CreatePod { name: "halldyll-pod".to_string() });
}

#[test]
fn row_exited_terminated_is_create() {
    let mut st = base_state();
    st.set_target(TargetStatus::Exited, 110);
    let obs = RemoteObservation::Found(snapshot("p1", "halldyll-pod", PodDesiredStatus::Terminated, 120));
    let action = st.reconcile(obs, 120);
    assert_eq!(action, PlannedAction::CreatePod { name: "halldyll-pod".to_string() });
}

#[test]
fn row_status_without_id_is_defensive_create() {
    // An id-less positive observation: reachable by an `Unknown` round
    // while a snapshot is remembered but no id is tracked.
    let mut st = base_state();
    st.last_remote = Some(snapshot("p1", "halldyll-pod", PodDesiredStatus::Exited, 90));
    st.pod_id = None;
    let action = st.reconcile(RemoteObservation::Unknown, 120);
    assert_eq!(action, PlannedAction::CreatePod { name: "halldyll-pod".to_string() });
}

#[test]
fn row_running_exited_with_id_starts_when_reusing() {
    let mut st = base_state();
    st.policy.reuse_exited_pod = true;
    let obs = RemoteObservation::Found(snapshot("p1", "halldyll-pod", PodDesiredStatus::Exited, 120));
    let action = st.reconcile(obs, 120);
    assert_eq!(action, PlannedAction::StartPod { id: PodId::new("p1".to_string()) });
}

#[test]
fn row_running_exited_with_id_creates_when_not_reusing() {
    let mut st = base_state();
    st.policy.reuse_exited_pod = false;
    let obs = RemoteObservation::Found(snapshot("p1", "halldyll-pod", PodDesiredStatus::Exited, 120));
    let action = st.reconcile(obs, 120);
    assert_eq!(action, PlannedAction::CreatePod { name: "halldyll-pod".to_string() });
}

#[test]
fn row_exited_running_with_id_is_stop() {
    let mut st = base_state();
    st.set_target(TargetStatus::Exited, 110);
    let obs = RemoteObservation::Found(snapshot("p1", "halldyll-pod", PodDesiredStatus::Running, 120));
    let action = st.reconcile(obs, 120);
    assert_eq!(action, PlannedAction::StopPod { id: PodId::new("p1".to_string()) });
}

#[test]
fn row_terminated_running_with_id_is_terminate() {
    let mut st = base_state();
    st.set_target(TargetStatus::Terminated, 110);
    let obs = RemoteObservation::Found(snapshot("p1", "halldyll-pod", PodDesiredStatus::Running, 120));
    let action = st.reconcile(obs, 120);
    assert_eq!(action, PlannedAction::TerminatePod { id: PodId::new("p1".to_string()) });
}

#[test]
fn row_terminated_exited_with_id_is_terminate() {
    let mut st = base_state();
    st.set_target(TargetStatus::Terminated, 110);
    let obs = RemoteObservation::Found(snapshot("p1", "halldyll-pod", PodDesiredStatus::Exited, 120));
    let action = st.reconcile(obs, 120);
    assert_eq!(action, PlannedAction::TerminatePod { id: PodId::new("p1".to_string()) });
}

// --- idempotence ---

#[test]
fn steady_state_reconcile_is_idempotent() {
    let mut st = base_state();
    let obs1 = RemoteObservation::Found(snapshot("p1", "halldyll-pod", PodDesiredStatus::Running, 120));
    let obs2 = RemoteObservation::Found(snapshot("p1", "halldyll-pod", PodDesiredStatus::Running, 120));
    let obs3 = RemoteObservation::Found(snapshot("p1", "halldyll-pod", PodDesiredStatus::Running, 120));
    assert_eq!(st.reconcile(obs1, 130), PlannedAction::Noop);
    let id_after_first = st.pod_id.clone();
    let remote_after_first = st.last_remote.clone();
    assert_eq!(st.reconcile(obs2, 140), PlannedAction::Noop);
    assert_eq!(st.reconcile(obs3, 150), PlannedAction::Noop);
    assert_eq!(st.pod_id, id_after_first);
    assert_eq!(st.last_remote, remote_after_first);
    assert_eq!(st.last_updated_ms, 150);
}

// --- no destructive action on transient failure ---

#[test]
fn unknown_preserves_id_and_never_creates() {
    let mut st = base_state();
    let obs = RemoteObservation::Found(snapshot("x", "halldyll-pod", PodDesiredStatus::Running, 120));
    st.reconcile(obs, 120);
    assert_eq!(st.pod_id, Some(PodId::new("x".to_string())));
    let action = st.reconcile(RemoteObservation::Unknown, 130);
    assert_eq!(st.pod_id, Some(PodId::new("x".to_string())));
    assert!(!matches!(action, PlannedAction::CreatePod { .. }));
    assert_eq!(action, PlannedAction::Noop);
}

#[test]
fn unknown_keeps_last_snapshot() {
    let mut st = base_state();
    let obs = RemoteObservation::Found(snapshot("x", "halldyll-pod", PodDesiredStatus::Exited, 120));
    st.reconcile(obs, 120);
    let remote_before = st.last_remote.clone();
    st.reconcile(RemoteObservation::Unknown, 130);
    assert_eq!(st.last_remote, remote_before);
}

// --- policy override ---

#[test]
fn auto_terminate_overrides_target_on_unknown() {
    let mut st = base_state();
    st.pod_id = Some(PodId::new("p1".to_string()));
    st.last_remote = Some(snapshot("p1", "halldyll-pod", PodDesiredStatus::Exited, 1000));
    st.target = TargetStatus::Running;
    st.policy.auto_terminate_after_exited_ms = Some(5000);
    let action = st.reconcile(RemoteObservation::Unknown, 6001);
    assert_eq!(st.target, TargetStatus::Terminated);
    assert_eq!(action, PlannedAction::TerminatePod { id: PodId::new("p1".to_string()) });
}

#[test]
fn auto_terminate_does_not_fire_before_threshold() {
    let mut st = base_state();
    st.pod_id = Some(PodId::new("p1".to_string()));
    st.last_remote = Some(snapshot("p1", "halldyll-pod", PodDesiredStatus::Exited, 1000));
    st.target = TargetStatus::Running;
    st.policy.auto_terminate_after_exited_ms = Some(5000);
    let action = st.reconcile(RemoteObservation::Unknown, 5999);
    assert_eq!(st.target, TargetStatus::Running);
    assert_eq!(action, PlannedAction::StartPod { id: PodId::new("p1".to_string()) });
}

// --- end-to-end scenario ---

#[test]
fn end_to_end_lifecycle() {
    // 1. New state, target Running, pod absent: create it.
    let mut st = base_state();
    let action = st.reconcile(RemoteObservation::NotFound, 200);
    assert_eq!(action, PlannedAction::CreatePod { name: "halldyll-pod".to_string() });

    // 2. Created as p1, later observed exited, reuse allowed: start it.
    st.apply_created(PodId::new("p1".to_string()), 210);
    st.policy.reuse_exited_pod = true;
    let obs = RemoteObservation::Found(snapshot("p1", "halldyll-pod", PodDesiredStatus::Exited, 220));
    let action = st.reconcile(obs, 220);
    assert_eq!(action, PlannedAction::StartPod { id: PodId::new("p1".to_string()) });

    // 3. Owner now wants it exited, but it is observed running: stop it.
    st.set_target(TargetStatus::Exited, 230);
    let obs = RemoteObservation::Found(snapshot("p1", "halldyll-pod", PodDesiredStatus::Running, 240));
    let action = st.reconcile(obs, 240);
    assert_eq!(action, PlannedAction::StopPod { id: PodId::new("p1".to_string()) });

    // 4. Owner wants it gone: terminate, record it, then nothing to do.
    st.set_target(TargetStatus::Terminated, 250);
    let obs = RemoteObservation::Found(snapshot("p1", "halldyll-pod", PodDesiredStatus::Running, 260));
    let action = st.reconcile(obs, 260);
    assert_eq!(action, PlannedAction::TerminatePod { id: PodId::new("p1".to_string()) });
    st.apply_terminated(270);
    let action = st.reconcile(RemoteObservation::NotFound, 280);
    assert_eq!(action, PlannedAction::Noop);
}

#[test]
fn not_found_clears_id_and_snapshot() {
    let mut st = base_state();
    let obs = RemoteObservation::Found(snapshot("p1", "halldyll-pod", PodDesiredStatus::Running, 120));
    st.reconcile(obs, 120);
    st.set_target(TargetStatus::Terminated, 125);
    st.reconcile(RemoteObservation::NotFound, 130);
    assert!(st.pod_id.is_none());
    assert!(st.last_remote.is_none());
}

#[test]
fn default_policy_reuses_and_never_reaps() {
    let policy = StatePolicy::default();
    assert!(policy.reuse_exited_pod);
    assert!(policy.auto_terminate_after_exited_ms.is_none());
}

#[test]
fn pod_id_accessors_round_trip() {
    let id = PodId::new("abc123".to_string());
    assert_eq!(id.as_str(), "abc123");
    let mut st = base_state();
    assert!(st.pod_id().is_none());
    st.apply_created(PodId::new("abc123".to_string()), 150);
    assert_eq!(st.pod_id().map(|p| p.as_str().to_string()), Some("abc123".to_string()));
}
