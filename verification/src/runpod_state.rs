//! Pod state management: the entity model and the reconciliation planner.
//!
//! A `RunPodState` tracks the locally desired target and the last confirmed
//! remote snapshot of a single pod.  `reconcile` assimilates a fresh
//! `RemoteObservation`, applies the auto-terminate policy, and decides the
//! one next action that closes the gap between target and observed status.
//!
//! The decision logic is specified by `reconcile_spec`, a pure function on
//! the mathematical views of the types; `reconcile` is proved to implement
//! it exactly.

use vstd::prelude::*;

verus! {

/// Version tag of the persisted state document.
pub const STATE_FORMAT_VERSION: u32 = 1;

/// Remote lifecycle status of a pod, as last reported by the service.
#[derive(Debug, Clone, Copy, PartialEq, Eq, Structural)]
pub enum PodDesiredStatus {
    /// Pod is running.
    Running,
    /// Pod has exited (stopped).
    Exited,
    /// Pod has been terminated.
    Terminated,
}

impl PodDesiredStatus {
    /// Whether the status is terminal: the pod no longer exists and no
    /// further action is possible on its id.
    pub fn is_terminal(self) -> (r: bool)
        ensures
            r == (self is Terminated),
    {
        matches!(self, Self::Terminated)
    }
}

/// Local target: the lifecycle status the owner wants for the pod.
#[derive(Debug, Clone, Copy, PartialEq, Eq, Structural)]
pub enum TargetStatus {
    /// Pod should be running.
    Running,
    /// Pod should be exited (stopped but preserving storage).
    Exited,
    /// Pod should be terminated (deleted).
    Terminated,
}

impl Default for TargetStatus {
    /// The default target is `Running`.
    fn default() -> (r: Self)
        ensures
            r is Running,
    {
        TargetStatus::Running
    }
}

/// Newtype for a pod id assigned by the remote service.
#[derive(Debug, Hash)]
pub struct PodId(String);

impl View for PodId {
    type V = Seq<char>;

    closed spec fn view(&self) -> Seq<char> {
        self.0@
    }
}

impl PodId {
    /// Wrap a raw id string.
    pub fn new(raw: String) -> (r: Self)
        ensures
            r@ == raw@,
    {
        PodId(raw)
    }

    /// The raw string form of the id.
    pub fn as_str(&self) -> (r: &str)
        ensures
            r@ == self@,
    {
        self.0.as_str()
    }
}

impl Clone for PodId {
    fn clone(&self) -> (r: Self)
        ensures
            r == *self,
    {
        PodId(self.0.clone())
    }
}

impl PartialEq for PodId {
    fn eq(&self, other: &Self) -> bool {
        self.0 == other.0
    }
}

impl vstd::std_specs::cmp::PartialEqSpecImpl for PodId {
    open spec fn obeys_eq_spec() -> bool {
        true
    }

    open spec fn eq_spec(&self, other: &Self) -> bool {
        self@ == other@
    }
}

/// Mathematical view of a `RemotePodSnapshot`.
#[verifier::ext_equal]
pub ghost struct SnapView {
    /// Id of the observed pod.
    pub id: Seq<char>,
    /// Name of the observed pod.
    pub name: Seq<char>,
    /// Reported lifecycle status.
    pub desired_status: PodDesiredStatus,
    /// When the snapshot was taken, in ms since the epoch.
    pub observed_at_ms: u64,
}

/// Minimal snapshot of remote pod state, replaced wholesale on each
/// successful observation.
#[derive(Debug)]
pub struct RemotePodSnapshot {
    /// Pod id.
    pub id: PodId,
    /// Pod name.
    pub name: String,
    /// Reported lifecycle status of the pod.
    pub desired_status: PodDesiredStatus,
    /// Timestamp (ms since epoch) when this snapshot was observed.
    pub observed_at_ms: u64,
}

impl View for RemotePodSnapshot {
    type V = SnapView;

    open spec fn view(&self) -> SnapView {
        SnapView {
            id: self.id@,
            name: self.name@,
            desired_status: self.desired_status,
            observed_at_ms: self.observed_at_ms,
        }
    }
}

impl Clone for RemotePodSnapshot {
    fn clone(&self) -> (r: Self)
        ensures
            r == *self,
    {
        RemotePodSnapshot {
            id: self.id.clone(),
            name: self.name.clone(),
            desired_status: self.desired_status,
            observed_at_ms: self.observed_at_ms,
        }
    }
}

impl PartialEq for RemotePodSnapshot {
    fn eq(&self, other: &Self) -> bool {
        self.id == other.id && self.name == other.name
            && self.desired_status == other.desired_status
            && self.observed_at_ms == other.observed_at_ms
    }
}

impl vstd::std_specs::cmp::PartialEqSpecImpl for RemotePodSnapshot {
    open spec fn obeys_eq_spec() -> bool {
        true
    }

    open spec fn eq_spec(&self, other: &Self) -> bool {
        self@ == other@
    }
}

/// Mathematical view of a `RemoteObservation`.
pub ghost enum ObsView {
    /// Pod found with the given snapshot.
    Found(SnapView),
    /// Pod definitely absent.
    NotFound,
    /// Probe failed; nothing was learned.
    Unknown,
}

/// Result of one probe of the remote service.
#[derive(Debug)]
pub enum RemoteObservation {
    /// Pod found with the given snapshot.
    Found(RemotePodSnapshot),
    /// Pod not found (deleted/terminated, or invalid id).
    NotFound,
    /// Transient or unknown error (timeout, network, server fault).
    Unknown,
}

impl View for RemoteObservation {
    type V = ObsView;

    open spec fn view(&self) -> ObsView {
        match self {
            RemoteObservation::Found(snapshot) => ObsView::Found(snapshot@),
            RemoteObservation::NotFound => ObsView::NotFound,
            RemoteObservation::Unknown => ObsView::Unknown,
        }
    }
}

impl Clone for RemoteObservation {
    fn clone(&self) -> (r: Self)
        ensures
            r == *self,
    {
        match self {
            RemoteObservation::Found(snapshot) => RemoteObservation::Found(snapshot.clone()),
            RemoteObservation::NotFound => RemoteObservation::NotFound,
            RemoteObservation::Unknown => RemoteObservation::Unknown,
        }
    }
}

impl PartialEq for RemoteObservation {
    fn eq(&self, other: &Self) -> bool {
        match (self, other) {
            (RemoteObservation::Found(a), RemoteObservation::Found(b)) => a == b,
            (RemoteObservation::NotFound, RemoteObservation::NotFound) => true,
            (RemoteObservation::Unknown, RemoteObservation::Unknown) => true,
            _ => false,
        }
    }
}

impl vstd::std_specs::cmp::PartialEqSpecImpl for RemoteObservation {
    open spec fn obeys_eq_spec() -> bool {
        true
    }

    open spec fn eq_spec(&self, other: &Self) -> bool {
        self@ == other@
    }
}

/// Mathematical view of a `PlannedAction`.
pub ghost enum ActionView {
    /// No operation needed.
    Noop,
    /// Create a new pod with the given name.
    CreatePod { name: Seq<char> },
    /// Start the pod with the given id.
    StartPod { id: Seq<char> },
    /// Stop the pod with the given id.
    StopPod { id: Seq<char> },
    /// Terminate the pod with the given id.
    TerminatePod { id: Seq<char> },
}

/// The engine's output: the one action the caller should execute next.
#[derive(Debug)]
pub enum PlannedAction {
    /// No operation needed.
    Noop,
    /// Create a new pod.
    CreatePod {
        /// Pod name.
        name: String,
    },
    /// Start a pod.
    StartPod {
        /// Pod id.
        id: PodId,
    },
    /// Stop a pod.
    StopPod {
        /// Pod id.
        id: PodId,
    },
    /// Terminate a pod.
    TerminatePod {
        /// Pod id.
        id: PodId,
    },
}

impl View for PlannedAction {
    type V = ActionView;

    open spec fn view(&self) -> ActionView {
        match self {
            PlannedAction::Noop => ActionView::Noop,
            PlannedAction::CreatePod { name } => ActionView::CreatePod { name: name@ },
            PlannedAction::StartPod { id } => ActionView::StartPod { id: id@ },
            PlannedAction::StopPod { id } => ActionView::StopPod { id: id@ },
            PlannedAction::TerminatePod { id } => ActionView::TerminatePod { id: id@ },
        }
    }
}

impl Clone for PlannedAction {
    fn clone(&self) -> (r: Self)
        ensures
            r == *self,
    {
        match self {
            PlannedAction::Noop => PlannedAction::Noop,
            PlannedAction::CreatePod { name } => PlannedAction::CreatePod { name: name.clone() },
            PlannedAction::StartPod { id } => PlannedAction::StartPod { id: id.clone() },
            PlannedAction::StopPod { id } => PlannedAction::StopPod { id: id.clone() },
            PlannedAction::TerminatePod { id } => PlannedAction::TerminatePod { id: id.clone() },
        }
    }
}

impl PartialEq for PlannedAction {
    fn eq(&self, other: &Self) -> bool {
        match (self, other) {
            (PlannedAction::Noop, PlannedAction::Noop) => true,
            (PlannedAction::CreatePod { name: a }, PlannedAction::CreatePod { name: b }) => *a
                == *b,
            (PlannedAction::StartPod { id: a }, PlannedAction::StartPod { id: b }) => a == b,
            (PlannedAction::StopPod { id: a }, PlannedAction::StopPod { id: b }) => a == b,
            (
                PlannedAction::TerminatePod { id: a },
                PlannedAction::TerminatePod { id: b },
            ) => a == b,
            _ => false,
        }
    }
}

impl vstd::std_specs::cmp::PartialEqSpecImpl for PlannedAction {
    open spec fn obeys_eq_spec() -> bool {
        true
    }

    open spec fn eq_spec(&self, other: &Self) -> bool {
        self@ == other@
    }
}

/// Local policy for state management: pure configuration.
#[derive(Debug, Clone, Copy, PartialEq, Eq, Structural)]
pub struct StatePolicy {
    /// If true: when the pod is exited, prefer starting it over recreating.
    pub reuse_exited_pod: bool,
    /// If set: once the pod has stayed exited at least this long, plan
    /// termination regardless of the requested target, to cut storage cost.
    pub auto_terminate_after_exited_ms: Option<u64>,
}

/// The policy used when none is given: reuse exited pods, never
/// auto-terminate.
pub open spec fn default_policy() -> StatePolicy {
    StatePolicy { reuse_exited_pod: true, auto_terminate_after_exited_ms: None }
}

impl Default for StatePolicy {
    fn default() -> (r: Self)
        ensures
            r == default_policy(),
    {
        StatePolicy { reuse_exited_pod: true, auto_terminate_after_exited_ms: None }
    }
}

/// Mathematical view of a `RunPodState`.
#[verifier::ext_equal]
pub ghost struct StateView {
    /// Format version of the persisted document.
    pub format_version: u32,
    /// Stable logical pod name.
    pub pod_name: Seq<char>,
    /// Currently known pod id, if any.
    pub pod_id: Option<Seq<char>>,
    /// Desired target status.
    pub target: TargetStatus,
    /// Last confirmed remote snapshot, if any.
    pub last_remote: Option<SnapView>,
    /// Last local update timestamp (ms).
    pub last_updated_ms: u64,
    /// Local policy.
    pub policy: StatePolicy,
}

/// Persistent pod state: the unit of persistence, one instance per managed
/// resource.
#[derive(Debug)]
pub struct RunPodState {
    /// Format version for state serialization.
    pub format_version: u32,
    /// Logical pod name (stable).
    pub pod_name: String,
    /// Current pod id (if known).
    pub pod_id: Option<PodId>,
    /// Desired target state.
    pub target: TargetStatus,
    /// Last known remote snapshot.
    pub last_remote: Option<RemotePodSnapshot>,
    /// Last local update timestamp (ms).
    pub last_updated_ms: u64,
    /// Local policy.
    pub policy: StatePolicy,
}

impl View for RunPodState {
    type V = StateView;

    open spec fn view(&self) -> StateView {
        StateView {
            format_version: self.format_version,
            pod_name: self.pod_name@,
            pod_id: match self.pod_id {
                Some(id) => Some(id@),
                None => None,
            },
            target: self.target,
            last_remote: match self.last_remote {
                Some(snapshot) => Some(snapshot@),
                None => None,
            },
            last_updated_ms: self.last_updated_ms,
            policy: self.policy,
        }
    }
}

impl Clone for RunPodState {
    fn clone(&self) -> (r: Self)
        ensures
            r == *self,
    {
        RunPodState {
            format_version: self.format_version,
            pod_name: self.pod_name.clone(),
            pod_id: match &self.pod_id {
                Some(id) => Some(id.clone()),
                None => None,
            },
            target: self.target,
            last_remote: match &self.last_remote {
                Some(snapshot) => Some(snapshot.clone()),
                None => None,
            },
            last_updated_ms: self.last_updated_ms,
            policy: self.policy,
        }
    }
}

impl PartialEq for RunPodState {
    fn eq(&self, other: &Self) -> bool {
        self.format_version == other.format_version && self.pod_name == other.pod_name
            && match (&self.pod_id, &other.pod_id) {
                (Some(a), Some(b)) => a == b,
                (None, None) => true,
                _ => false,
            }
            && self.target == other.target
            && match (&self.last_remote, &other.last_remote) {
                (Some(a), Some(b)) => a == b,
                (None, None) => true,
                _ => false,
            }
            && self.last_updated_ms == other.last_updated_ms
            && self.policy == other.policy
    }
}

impl vstd::std_specs::cmp::PartialEqSpecImpl for RunPodState {
    open spec fn obeys_eq_spec() -> bool {
        true
    }

    open spec fn eq_spec(&self, other: &Self) -> bool {
        self@ == other@
    }
}

/// The effective status for this round: a `Found` observation reports its
/// own status, `NotFound` reports absence, and `Unknown` falls back to the
/// previously confirmed snapshot, if any.
pub open spec fn effective_status(pre: StateView, obs: ObsView) -> Option<PodDesiredStatus> {
    match obs {
        ObsView::Found(snap) => Some(snap.desired_status),
        ObsView::NotFound => None,
        ObsView::Unknown => match pre.last_remote {
            Some(snap) => Some(snap.desired_status),
            None => None,
        },
    }
}

/// The state after assimilating an observation: `Found` replaces id and
/// snapshot wholesale, `NotFound` clears both, `Unknown` leaves both
/// untouched.  The update timestamp always becomes `now_ms`.
pub open spec fn assimilated(pre: StateView, obs: ObsView, now_ms: u64) -> StateView {
    match obs {
        ObsView::Found(snap) => StateView {
            pod_id: Some(snap.id),
            last_remote: Some(snap),
            last_updated_ms: now_ms,
            ..pre
        },
        ObsView::NotFound => StateView {
            pod_id: None,
            last_remote: None,
            last_updated_ms: now_ms,
            ..pre
        },
        ObsView::Unknown => StateView { last_updated_ms: now_ms, ..pre },
    }
}

/// Elapsed time since a snapshot was observed, saturating at zero for
/// out-of-order clocks.
pub open spec fn elapsed_since(observed_at_ms: u64, now_ms: u64) -> u64 {
    if now_ms >= observed_at_ms {
        (now_ms - observed_at_ms) as u64
    } else {
        0u64
    }
}

/// Whether the auto-terminate policy overrides the target: the last known
/// snapshot is exited and has been so at least the configured threshold.
pub open spec fn auto_terminate_fires(s: StateView, now_ms: u64) -> bool {
    match (s.policy.auto_terminate_after_exited_ms, s.last_remote) {
        (Some(threshold_ms), Some(snap)) => snap.desired_status is Exited
            && elapsed_since(snap.observed_at_ms, now_ms) >= threshold_ms,
        _ => false,
    }
}

/// The decision table: maps (target, effective status, id presence) to the
/// one planned action.  Every combination is covered exactly once.
pub open spec fn decide_action(
    target: TargetStatus,
    effective: Option<PodDesiredStatus>,
    pod_id: Option<Seq<char>>,
    pod_name: Seq<char>,
    reuse_exited_pod: bool,
) -> ActionView {
    match (target, effective, pod_id) {
        (TargetStatus::Terminated, None | Some(PodDesiredStatus::Terminated), _) => ActionView::Noop,
        (TargetStatus::Running, Some(PodDesiredStatus::Running), _) => ActionView::Noop,
        (TargetStatus::Exited, Some(PodDesiredStatus::Exited), _) => ActionView::Noop,
        (
            TargetStatus::Running | TargetStatus::Exited,
            None | Some(PodDesiredStatus::Terminated),
            _,
        ) => ActionView::CreatePod { name: pod_name },
        (_, Some(_), None) => ActionView::CreatePod { name: pod_name },
        (TargetStatus::Running, Some(PodDesiredStatus::Exited), Some(id)) => if reuse_exited_pod {
            ActionView::StartPod { id }
        } else {
            ActionView::CreatePod { name: pod_name }
        },
        (TargetStatus::Exited, Some(PodDesiredStatus::Running), Some(id)) => ActionView::StopPod {
            id,
        },
        (
            TargetStatus::Terminated,
            Some(PodDesiredStatus::Running | PodDesiredStatus::Exited),
            Some(id),
        ) => ActionView::TerminatePod { id },
    }
}

/// Full specification of one reconciliation round: assimilate the
/// observation, apply the policy override, then decide by the table.
pub open spec fn reconcile_spec(pre: StateView, obs: ObsView, now_ms: u64) -> (StateView, ActionView) {
    let mid = assimilated(pre, obs, now_ms);
    let target = if auto_terminate_fires(mid, now_ms) {
        TargetStatus::Terminated
    } else {
        mid.target
    };
    let post = StateView { target: target, ..mid };
    let action = decide_action(
        target,
        effective_status(pre, obs),
        post.pod_id,
        post.pod_name,
        post.policy.reuse_exited_pod,
    );
    (post, action)
}

impl RunPodState {
    /// Create a new initial state: no id, target `Running`, default policy.
    pub fn new(pod_name: String, now_ms: u64) -> (r: Self)
        ensures
            r@ == (StateView {
                format_version: STATE_FORMAT_VERSION,
                pod_name: pod_name@,
                pod_id: None,
                target: TargetStatus::Running,
                last_remote: None,
                last_updated_ms: now_ms,
                policy: default_policy(),
            }),
    {
        RunPodState {
            format_version: STATE_FORMAT_VERSION,
            pod_name: pod_name,
            pod_id: None,
            target: TargetStatus::Running,
            last_remote: None,
            last_updated_ms: now_ms,
            policy: StatePolicy::default(),
        }
    }

    /// Set the local target state.
    pub fn set_target(&mut self, target: TargetStatus, now_ms: u64)
        ensures
            final(self)@ == (StateView { target: target, last_updated_ms: now_ms, ..old(self)@ }),
    {
        self.target = target;
        self.last_updated_ms = now_ms;
    }

    /// The current pod id, if known.
    pub fn pod_id(&self) -> (r: Option<&PodId>)
        ensures
            match r {
                Some(id) => self@.pod_id == Some(id@),
                None => self@.pod_id is None,
            },
    {
        self.pod_id.as_ref()
    }

    /// One reconciliation round: assimilate `observation`, apply the
    /// auto-terminate policy, and return the planned action, exactly as
    /// `reconcile_spec` describes.  Never fails: an `Unknown` observation
    /// is a first-class input, not an error.
    pub fn reconcile(&mut self, observation: RemoteObservation, now_ms: u64) -> (action:
        PlannedAction)
        ensures
            final(self)@ == reconcile_spec(old(self)@, observation@, now_ms).0,
            action@ == reconcile_spec(old(self)@, observation@, now_ms).1,
    {
        self.last_updated_ms = now_ms;

        let effective: Option<PodDesiredStatus> = match observation {
            RemoteObservation::Found(snapshot) => {
                let status = snapshot.desired_status;
                self.pod_id = Some(snapshot.id.clone());
                self.last_remote = Some(snapshot);
                Some(status)
            },
            RemoteObservation::NotFound => {
                self.pod_id = None;
                self.last_remote = None;
                None
            },
            RemoteObservation::Unknown => match &self.last_remote {
                Some(snapshot) => Some(snapshot.desired_status),
                None => None,
            },
        };

        if let Some(threshold_ms) = self.policy.auto_terminate_after_exited_ms {
            if let Some(snapshot) = &self.last_remote {
                if matches!(snapshot.desired_status, PodDesiredStatus::Exited) {
                    let elapsed: u64 = if now_ms >= snapshot.observed_at_ms {
                        now_ms - snapshot.observed_at_ms
                    } else {
                        0
                    };
                    if elapsed >= threshold_ms {
                        self.target = TargetStatus::Terminated;
                    }
                }
            }
        }

        match (self.target, effective) {
            (TargetStatus::Terminated, None)
            | (TargetStatus::Terminated, Some(PodDesiredStatus::Terminated))
            | (TargetStatus::Running, Some(PodDesiredStatus::Running))
            | (TargetStatus::Exited, Some(PodDesiredStatus::Exited)) => PlannedAction::Noop,
            (TargetStatus::Running, None)
            | (TargetStatus::Exited, None)
            | (TargetStatus::Running, Some(PodDesiredStatus::Terminated))
            | (TargetStatus::Exited, Some(PodDesiredStatus::Terminated)) => PlannedAction::CreatePod {
                name: self.pod_name.clone(),
            },
            (TargetStatus::Running, Some(PodDesiredStatus::Exited)) => match &self.pod_id {
                None => PlannedAction::CreatePod { name: self.pod_name.clone() },
                Some(id) => if self.policy.reuse_exited_pod {
                    PlannedAction::StartPod { id: id.clone() }
                } else {
                    PlannedAction::CreatePod { name: self.pod_name.clone() }
                },
            },
            (TargetStatus::Exited, Some(PodDesiredStatus::Running)) => match &self.pod_id {
                None => PlannedAction::CreatePod { name: self.pod_name.clone() },
                Some(id) => PlannedAction::StopPod { id: id.clone() },
            },
            (TargetStatus::Terminated, Some(PodDesiredStatus::Running))
            | (TargetStatus::Terminated, Some(PodDesiredStatus::Exited)) => match &self.pod_id {
                None => PlannedAction::CreatePod { name: self.pod_name.clone() },
                Some(id) => PlannedAction::TerminatePod { id: id.clone() },
            },
        }
    }

    /// Record a successful creation: remember the assigned id.  The next
    /// observation will fill in the snapshot.
    pub fn apply_created(&mut self, id: PodId, now_ms: u64)
        ensures
            final(self)@ == (StateView {
                pod_id: Some(id@),
                last_updated_ms: now_ms,
                ..old(self)@
            }),
    {
        self.pod_id = Some(id);
        self.last_updated_ms = now_ms;
    }

    /// Record a successful termination (or forget the id).
    pub fn apply_terminated(&mut self, now_ms: u64)
        ensures
            final(self)@ == (StateView {
                pod_id: None,
                last_remote: None,
                last_updated_ms: now_ms,
                ..old(self)@
            }),
    {
        self.pod_id = None;
        self.last_remote = None;
        self.last_updated_ms = now_ms;
    }
}

/// A definite absence leaves nothing behind: after a `NotFound` round the
/// state tracks no id and no snapshot.
pub proof fn lemma_not_found_clears_knowledge(pre: StateView, now_ms: u64)
    ensures
        reconcile_spec(pre, ObsView::NotFound, now_ms).0.pod_id is None,
        reconcile_spec(pre, ObsView::NotFound, now_ms).0.last_remote is None,
{
}

/// A transient `Unknown` observation never destroys local knowledge: the
/// known id and the last snapshot are carried over unchanged.
pub proof fn lemma_unknown_preserves_knowledge(pre: StateView, now_ms: u64)
    ensures
        reconcile_spec(pre, ObsView::Unknown, now_ms).0.pod_id == pre.pod_id,
        reconcile_spec(pre, ObsView::Unknown, now_ms).0.last_remote == pre.last_remote,
{
}

/// A transient `Unknown` observation never plans a creation while a live
/// pod is already tracked: with a known id, target `Running`, and a last
/// snapshot that is not terminated (and, if exited, a policy that reuses
/// exited pods), the planned action is anything but `CreatePod`.
pub proof fn lemma_unknown_no_create(pre: StateView, now_ms: u64)
    requires
        pre.pod_id is Some,
        pre.target is Running,
        pre.last_remote matches Some(snap) && !(snap.desired_status is Terminated) && (
        snap.desired_status is Exited ==> pre.policy.reuse_exited_pod),
    ensures
        !(reconcile_spec(pre, ObsView::Unknown, now_ms).1 is CreatePod),
        reconcile_spec(pre, ObsView::Unknown, now_ms).0.pod_id == pre.pod_id,
{
}

/// Whether a target is already satisfied by an observed status.
pub open spec fn steady_pair(target: TargetStatus, status: PodDesiredStatus) -> bool {
    ||| (target is Running && status is Running)
    ||| (target is Exited && status is Exited)
    ||| (target is Terminated && status is Terminated)
}

/// Idempotence in the steady state: when the target is already satisfied
/// by the observed status and the auto-terminate override does not fire,
/// reconciling with the same `Found` snapshot, any number of times, plans
/// `Noop` every time and changes nothing but the update timestamp.
pub proof fn lemma_reconcile_steady_noop(pre: StateView, snap: SnapView, now1: u64, now2: u64)
    requires
        steady_pair(pre.target, snap.desired_status),
        snap.desired_status is Exited ==> match pre.policy.auto_terminate_after_exited_ms {
            Some(threshold_ms) => elapsed_since(snap.observed_at_ms, now1) < threshold_ms
                && elapsed_since(snap.observed_at_ms, now2) < threshold_ms,
            None => true,
        },
    ensures
        reconcile_spec(pre, ObsView::Found(snap), now1).1 == ActionView::Noop,
        ({
            let post1 = reconcile_spec(pre, ObsView::Found(snap), now1).0;
            &&& post1.pod_id == Some(snap.id)
            &&& post1.last_remote == Some(snap)
            &&& post1.target == pre.target
            &&& reconcile_spec(post1, ObsView::Found(snap), now2).1 == ActionView::Noop
            &&& reconcile_spec(post1, ObsView::Found(snap), now2).0 == (StateView {
                last_updated_ms: now2,
                ..post1
            })
        }),
{
    assert(reconcile_spec(
        reconcile_spec(pre, ObsView::Found(snap), now1).0,
        ObsView::Found(snap),
        now2,
    ).0 =~= (StateView { last_updated_ms: now2, ..reconcile_spec(pre, ObsView::Found(snap), now1).0 }));
}

/// Current wall-clock time in milliseconds since the UNIX epoch.
///
/// Relies on `std::time::SystemTime`: the duration since the epoch,
/// saturated into the `u64` range; 0 if the clock reads before the epoch.
#[verifier::external_body]
pub fn now_unix_ms() -> u64 {
    match std::time::SystemTime::now().duration_since(std::time::UNIX_EPOCH) {
        Ok(dur) => u64::try_from(dur.as_millis()).unwrap_or(u64::MAX),
        Err(_) => 0,
    }
}

} // verus!
