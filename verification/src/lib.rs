//! State reconciliation engine for a single remotely hosted compute pod.
//!
//! The engine tracks what the local owner wants (`TargetStatus`), what the
//! remote service last reported (`RemotePodSnapshot`), and computes the
//! minimal next action (`PlannedAction`) to close the gap.  It never talks
//! to the network itself: callers feed it `RemoteObservation` values and
//! execute the actions it plans.
//!
//! The persisted state is a JSON document written through an atomic
//! two-phase protocol (temporary sibling file, then rename), so that a
//! crash at any point leaves either the old or the new valid document on
//! disk, never a partial one.

pub mod json_text;
pub mod runpod_client;
pub mod runpod_orchestrator;
pub mod runpod_provisioner;
pub mod runpod_starter;
pub mod runpod_state;
pub mod state_codec;
pub mod state_store;

pub use runpod_client::RunpodClientConfig;
pub use runpod_orchestrator::{PodLease, RunpodOrchestratorConfig};
pub use runpod_provisioner::RunpodProvisionConfig;
pub use runpod_starter::RunpodStarterConfig;
pub use runpod_state::{PlannedAction, RunPodState};
pub use state_store::JsonFileStateStore;
