//! Provisioning a new pod: configuration and request building.
//!
//! The request body sent to the service's create endpoint is assembled
//! here, field for field from the configuration, and that assembly is
//! verified; the HTTP call and the JSON wire handling live with the
//! caller.

use std::collections::HashMap;
use vstd::prelude::*;

verus! {

/// Configuration for provisioning a new pod.
#[derive(Debug)]
pub struct RunpodProvisionConfig {
    /// API key for authentication.
    pub api_key: String,
    /// REST root URL of the service.
    pub rest_url: String,
    /// Pod name.
    pub name: String,
    /// Cloud type: `SECURE` or `COMMUNITY`.
    pub cloud_type: String,
    /// Compute type: `GPU` or `CPU`.
    pub compute_type: String,
    /// Container image name.
    pub image_name: String,
    /// Number of GPUs.
    pub gpu_count: u32,
    /// GPU type ids.
    pub gpu_type_ids: Vec<String>,
    /// Container disk size in GB.
    pub container_disk_gb: u32,
    /// Volume size in GB.
    pub volume_gb: u32,
    /// Volume mount path.
    pub volume_mount_path: String,
    /// Exposed ports, as `<port>/<protocol>` entries.
    pub ports: Vec<String>,
    /// Optional network volume id for shared persistent storage.
    pub network_volume_id: Option<String>,
    /// HTTP request timeout in milliseconds.
    pub timeout_ms: u64,
    /// Whether to start Jupyter on pod creation.
    pub start_jupyter: bool,
    /// Whether to start SSH on pod creation.
    pub start_ssh: bool,
    /// Additional environment variables for the pod.
    pub pod_env: HashMap<String, String>,
}

/// The request body of the create endpoint, mirroring the API's field
/// names.
#[derive(Debug)]
#[allow(non_snake_case)]
pub struct CreatePodRequest {
    /// Cloud type.
    pub cloudType: String,
    /// Compute type.
    pub computeType: String,
    /// Pod name.
    pub name: String,
    /// Container image name.
    pub imageName: String,
    /// GPU count.
    pub gpuCount: u32,
    /// GPU type ids.
    pub gpuTypeIds: Vec<String>,
    /// Container disk size in GB.
    pub containerDiskInGb: u32,
    /// Volume size in GB.
    pub volumeInGb: u32,
    /// Volume mount path.
    pub volumeMountPath: String,
    /// Exposed ports.
    pub ports: Vec<String>,
    /// Environment variables.
    pub env: HashMap<String, String>,
    /// Network volume id.
    pub networkVolumeId: Option<String>,
    /// Whether to start Jupyter.
    pub startJupyter: bool,
    /// Whether to start SSH.
    pub startSsh: bool,
}

/// A newly created pod.
#[derive(Debug)]
pub struct CreatedPod {
    /// Pod id assigned by the service.
    pub id: String,
    /// Reported lifecycle status.
    pub desired_status: Option<String>,
    /// Public IP address, if already available.
    pub public_ip: Option<String>,
}

/// Copy a vector of strings.
fn clone_string_vec(v: &Vec<String>) -> (r: Vec<String>)
    ensures
        r@ == v@,
{
    let r = v.clone();
    proof {
        assert forall|i: int| 0 <= i < v@.len() implies r@[i] == v@[i] by {
            assert(cloned::<String>(v@[i], r@[i]));
        }
        assert(r@ =~= v@);
    }
    r
}

impl RunpodProvisionConfig {
    /// Assemble the create request from this configuration, field for
    /// field.
    pub fn build_create_request(&self) -> (r: CreatePodRequest)
        ensures
            r.cloudType@ == self.cloud_type@,
            r.computeType@ == self.compute_type@,
            r.name@ == self.name@,
            r.imageName@ == self.image_name@,
            r.gpuCount == self.gpu_count,
            r.gpuTypeIds@ == self.gpu_type_ids@,
            r.containerDiskInGb == self.container_disk_gb,
            r.volumeInGb == self.volume_gb,
            r.volumeMountPath@ == self.volume_mount_path@,
            r.ports@ == self.ports@,
            r.env@ == self.pod_env@,
            match r.networkVolumeId {
                Some(id) => self.network_volume_id matches Some(own) && id@ == own@,
                None => self.network_volume_id is None,
            },
            r.startJupyter == self.start_jupyter,
            r.startSsh == self.start_ssh,
    {
        CreatePodRequest {
            cloudType: self.cloud_type.clone(),
            computeType: self.compute_type.clone(),
            name: self.name.clone(),
            imageName: self.image_name.clone(),
            gpuCount: self.gpu_count,
            gpuTypeIds: clone_string_vec(&self.gpu_type_ids),
            containerDiskInGb: self.container_disk_gb,
            volumeInGb: self.volume_gb,
            volumeMountPath: self.volume_mount_path.clone(),
            ports: clone_string_vec(&self.ports),
            env: self.pod_env.clone(),
            networkVolumeId: match &self.network_volume_id {
                Some(id) => Some(id.clone()),
                None => None,
            },
            startJupyter: self.start_jupyter,
            startSsh: self.start_ssh,
        }
    }
}

} // verus!
