//! URLs, retry policy, port parsing, the readiness poller's decision,
//! pod selection, and the lease's connection helpers.

use std::collections::HashMap;

use halldyll_starter::runpod_client;
use halldyll_starter::runpod_client::RunpodClientConfig;
use halldyll_starter::runpod_orchestrator::{
    build_port_mappings, classify_pod_response, find_pod_by_name, is_compatible, parse_port_spec,
    parse_u16_all, plan_ensure, wait_ready_step, EnsurePodPlan, PodDetails, PodFetchDisposition,
    PodInfo, PodLease, ReconcileMode, WaitStep,
};
use halldyll_starter::runpod_provisioner::RunpodProvisionConfig;
use halldyll_starter::runpod_starter;
use halldyll_starter::runpod_starter::RunpodStarterConfig;

fn starter_config(rest_url: &str, pod_id: &str) -> RunpodStarterConfig {
    RunpodStarterConfig {
        api_key: "test-key".to_string(),
        rest_url: rest_url.to_string(),
        pod_id: pod_id.to_string(),
        timeout_ms: 15000,
        retry_max: 3,
        retry_backoff_ms: 250,
        user_agent: "halldyll-starter/1.0".to_string(),
    }
}

#[test]
fn start_and_stop_urls_trim_trailing_slashes() {
    let cfg = starter_config("https://rest.runpod.io/v1///", "p1");
    assert_eq!(cfg.start_url(), "https://rest.runpod.io/v1/pods/p1/start");
    assert_eq!(cfg.stop_url(), "https://rest.runpod.io/v1/pods/p1/stop");
    let cfg = starter_config("https://rest.runpod.io/v1", "p2");
    assert_eq!(cfg.start_url(), "https://rest.runpod.io/v1/pods/p2/start");
}

#[test]
fn retryable_statuses_match_the_transient_set() {
    for status in [408u16, 409, 425, 429, 500, 502, 503, 504] {
        assert!(runpod_starter::is_retryable_status(status));
        assert!(runpod_client::is_retryable_status(status));
    }
    for status in [200u16, 201, 301, 400, 401, 403, 404, 410, 501] {
        assert!(!runpod_starter::is_retryable_status(status));
        assert!(!runpod_client::is_retryable_status(status));
    }
}

#[test]
fn should_retry_respects_the_attempt_budget() {
    assert!(runpod_starter::should_retry(1, 3, true));
    assert!(runpod_starter::should_retry(3, 3, true));
    assert!(!runpod_starter::should_retry(4, 3, true));
    assert!(!runpod_starter::should_retry(1, 3, false));
}

#[test]
fn starter_backoff_doubles_and_caps_at_five_seconds() {
    assert_eq!(runpod_starter::next_backoff(250), 500);
    assert_eq!(runpod_starter::next_backoff(2000), 4000);
    assert_eq!(runpod_starter::next_backoff(2500), 5000);
    assert_eq!(runpod_starter::next_backoff(4000), 5000);
}

#[test]
fn client_backoff_doubles_and_caps_at_ten_seconds() {
    assert_eq!(runpod_client::next_backoff(500), 1000);
    assert_eq!(runpod_client::next_backoff(4999), 9998);
    assert_eq!(runpod_client::next_backoff(5000), 10000);
    assert_eq!(runpod_client::next_backoff(60000), 10000);
}

#[test]
fn join_messages_uses_the_separator() {
    let parts: Vec<String> = vec![];
    assert_eq!(runpod_client::join_messages(&parts, "; "), "");
    let parts = vec!["one".to_string()];
    assert_eq!(runpod_client::join_messages(&parts, "; "), "one");
    let parts = vec!["one".to_string(), "two".to_string(), "three".to_string()];
    assert_eq!(runpod_client::join_messages(&parts, "; "), "one; two; three");
}

#[test]
fn port_specs_parse_to_their_port() {
    assert_eq!(parse_port_spec("22/tcp"), Some(22));
    assert_eq!(parse_port_spec("8888/http"), Some(8888));
    assert_eq!(parse_port_spec("22"), Some(22));
    assert_eq!(parse_port_spec(""), None);
    assert_eq!(parse_port_spec("/tcp"), None);
    assert_eq!(parse_port_spec("2a/tcp"), None);
    assert_eq!(parse_port_spec("65535/tcp"), Some(65535));
    assert_eq!(parse_port_spec("65536/tcp"), None);
    assert_eq!(parse_port_spec("70000"), None);
}

#[test]
fn strict_u16_parse_requires_digits_only() {
    assert_eq!(parse_u16_all("22"), Some(22));
    assert_eq!(parse_u16_all("0"), Some(0));
    assert_eq!(parse_u16_all("65535"), Some(65535));
    assert_eq!(parse_u16_all("65536"), None);
    assert_eq!(parse_u16_all(""), None);
    assert_eq!(parse_u16_all("22/tcp"), None);
    assert_eq!(parse_u16_all("2a"), None);
}

#[test]
fn port_mappings_build_from_entries() {
    let entries = vec![
        ("22".to_string(), 10022u16),
        ("8888".to_string(), 18888u16),
        ("bogus".to_string(), 1u16),
    ];
    let m = build_port_mappings(&entries);
    assert_eq!(m.get(&22), Some(&10022));
    assert_eq!(m.get(&8888), Some(&18888));
    assert_eq!(m.len(), 2);
}

fn ready_pod() -> PodDetails {
    PodDetails {
        id: "p1".to_string(),
        name: Some("halldyll-pod".to_string()),
        desiredStatus: Some("RUNNING".to_string()),
        imageName: Some("img:1".to_string()),
        publicIp: Some("1.2.3.4".to_string()),
        portMappings: Some(vec![("22".to_string(), 10022u16), ("8888".to_string(), 18888u16)]),
        ports: Some(vec!["22/tcp".to_string(), "8888/http".to_string()]),
    }
}

fn required_ports() -> Vec<String> {
    vec!["22/tcp".to_string(), "8888/http".to_string()]
}

#[test]
fn wait_step_times_out_past_the_deadline() {
    let r = wait_ready_step(300001, 300000, Some(ready_pod()), &required_ports());
    assert!(matches!(r, WaitStep::Timeout));
}

#[test]
fn wait_step_fails_fast_on_a_vanished_pod() {
    let r = wait_ready_step(1000, 300000, None, &required_ports());
    assert!(matches!(r, WaitStep::Vanished));
}

#[test]
fn wait_step_retries_until_running() {
    let mut pod = ready_pod();
    pod.desiredStatus = Some("EXITED".to_string());
    let r = wait_ready_step(1000, 300000, Some(pod), &required_ports());
    assert!(matches!(r, WaitStep::RetryLater));
}

#[test]
fn wait_step_retries_without_a_public_address() {
    let mut pod = ready_pod();
    pod.publicIp = Some(String::new());
    let r = wait_ready_step(1000, 300000, Some(pod), &required_ports());
    assert!(matches!(r, WaitStep::RetryLater));
    let mut pod = ready_pod();
    pod.publicIp = None;
    let r = wait_ready_step(1000, 300000, Some(pod), &required_ports());
    assert!(matches!(r, WaitStep::RetryLater));
}

#[test]
fn wait_step_retries_with_a_missing_required_port() {
    let mut pod = ready_pod();
    pod.portMappings = Some(vec![("22".to_string(), 10022u16)]);
    let r = wait_ready_step(1000, 300000, Some(pod), &required_ports());
    assert!(matches!(r, WaitStep::RetryLater));
}

#[test]
fn wait_step_resolves_a_ready_lease() {
    let r = wait_ready_step(1000, 300000, Some(ready_pod()), &required_ports());
    match r {
        WaitStep::Ready(lease) => {
            assert_eq!(lease.id, "p1");
            assert_eq!(lease.name, "halldyll-pod");
            assert_eq!(lease.public_ip, "1.2.3.4");
            assert_eq!(lease.desired_status, "RUNNING");
            assert_eq!(lease.port_mappings.get(&22), Some(&10022));
            assert_eq!(lease.port_mappings.get(&8888), Some(&18888));
        },
        other => panic!("expected a ready lease, got {:?}", other),
    }
}

fn sample_lease() -> PodLease {
    let mut mappings = HashMap::new();
    mappings.insert(22u16, 10022u16);
    mappings.insert(8888u16, 18888u16);
    PodLease {
        id: "p1".to_string(),
        name: "halldyll-pod".to_string(),
        public_ip: "1.2.3.4".to_string(),
        port_mappings: mappings,
        desired_status: "RUNNING".to_string(),
    }
}

#[test]
fn lease_endpoints_resolve_mapped_ports() {
    let lease = sample_lease();
    assert_eq!(lease.ssh_endpoint(), Some(("1.2.3.4", 10022)));
    assert_eq!(lease.http_endpoint(8888), Some("http://1.2.3.4:18888".to_string()));
    assert_eq!(lease.jupyter_endpoint(), Some("http://1.2.3.4:18888".to_string()));
    assert_eq!(lease.tcp_endpoint(22), Some(("1.2.3.4".to_string(), 10022)));
    assert_eq!(lease.http_endpoint(5000), None);
    assert_eq!(lease.tcp_endpoint(5000), None);
}

fn listed_pod(name: &str, status: &str, image: &str) -> PodInfo {
    PodInfo {
        id: format!("id-{}", name),
        name: Some(name.to_string()),
        desiredStatus: Some(status.to_string()),
        imageName: Some(image.to_string()),
        machineId: None,
    }
}

#[test]
fn find_pod_by_name_returns_first_match() {
    let pods = vec![
        listed_pod("other", "RUNNING", "img:1"),
        listed_pod("halldyll-pod", "EXITED", "img:1"),
        listed_pod("halldyll-pod", "RUNNING", "img:1"),
    ];
    assert_eq!(find_pod_by_name(&pods, "halldyll-pod"), Some(1));
    assert_eq!(find_pod_by_name(&pods, "missing"), None);
}

#[test]
fn compatibility_needs_image_and_liveness() {
    let pod = listed_pod("halldyll-pod", "RUNNING", "img:1");
    assert!(is_compatible(&pod, "img:1"));
    assert!(!is_compatible(&pod, "img:2"));
    let gone = listed_pod("halldyll-pod", "TERMINATED", "img:1");
    assert!(!is_compatible(&gone, "img:1"));
}

#[test]
fn plan_reuses_a_compatible_pod() {
    let pod = listed_pod("halldyll-pod", "RUNNING", "img:1");
    let plan = plan_ensure(Some(&pod), &ReconcileMode::Reuse, "img:1");
    match plan {
        EnsurePodPlan::UseExisting { pod_id, start_first } => {
            assert_eq!(pod_id, "id-halldyll-pod");
            assert!(!start_first);
        },
        other => panic!("expected reuse, got {:?}", other),
    }
}

#[test]
fn plan_starts_an_exited_pod_before_reuse() {
    let pod = listed_pod("halldyll-pod", "EXITED", "img:1");
    let plan = plan_ensure(Some(&pod), &ReconcileMode::Reuse, "img:1");
    assert!(matches!(plan, EnsurePodPlan::UseExisting { start_first: true, .. }));
}

#[test]
fn plan_recreates_in_recreate_mode() {
    let pod = listed_pod("halldyll-pod", "RUNNING", "img:1");
    let plan = plan_ensure(Some(&pod), &ReconcileMode::Recreate, "img:1");
    assert!(matches!(plan, EnsurePodPlan::Recreate { .. }));
}

#[test]
fn plan_creates_for_incompatible_or_absent_pods() {
    let pod = listed_pod("halldyll-pod", "RUNNING", "img:old");
    let plan = plan_ensure(Some(&pod), &ReconcileMode::Reuse, "img:1");
    assert!(matches!(plan, EnsurePodPlan::CreateNew));
    let plan = plan_ensure(None, &ReconcileMode::Reuse, "img:1");
    assert!(matches!(plan, EnsurePodPlan::CreateNew));
}

#[test]
fn pod_responses_classify_by_status() {
    assert_eq!(classify_pod_response(404), PodFetchDisposition::NotFound);
    assert_eq!(classify_pod_response(200), PodFetchDisposition::Success);
    assert_eq!(classify_pod_response(204), PodFetchDisposition::Success);
    assert_eq!(classify_pod_response(500), PodFetchDisposition::Failure);
    assert_eq!(classify_pod_response(301), PodFetchDisposition::Failure);
}

#[test]
fn create_request_mirrors_the_configuration() {
    let mut env = HashMap::new();
    env.insert("KEY".to_string(), "value".to_string());
    let cfg = RunpodProvisionConfig {
        api_key: "test-key".to_string(),
        rest_url: "https://rest.runpod.io/v1".to_string(),
        name: "halldyll-pod".to_string(),
        cloud_type: "SECURE".to_string(),
        compute_type: "GPU".to_string(),
        image_name: "img:1".to_string(),
        gpu_count: 1,
        gpu_type_ids: vec!["NVIDIA A40".to_string()],
        container_disk_gb: 50,
        volume_gb: 20,
        volume_mount_path: "/workspace".to_string(),
        ports: vec!["22/tcp".to_string(), "8888/http".to_string()],
        network_volume_id: None,
        timeout_ms: 15000,
        start_jupyter: false,
        start_ssh: true,
        pod_env: env,
    };
    let req = cfg.build_create_request();
    assert_eq!(req.cloudType, "SECURE");
    assert_eq!(req.computeType, "GPU");
    assert_eq!(req.name, "halldyll-pod");
    assert_eq!(req.imageName, "img:1");
    assert_eq!(req.gpuCount, 1);
    assert_eq!(req.gpuTypeIds, vec!["NVIDIA A40".to_string()]);
    assert_eq!(req.containerDiskInGb, 50);
    assert_eq!(req.volumeInGb, 20);
    assert_eq!(req.volumeMountPath, "/workspace");
    assert_eq!(req.ports, vec!["22/tcp".to_string(), "8888/http".to_string()]);
    assert_eq!(req.env.get("KEY"), Some(&"value".to_string()));
    assert!(req.networkVolumeId.is_none());
    assert!(!req.startJupyter);
    assert!(req.startSsh);
}

#[test]
fn client_config_holds_plain_values() {
    let cfg = RunpodClientConfig {
        api_key: "test-key".to_string(),
        graphql_url: "https://api.runpod.io/graphql".to_string(),
        timeout_ms: 30000,
        retry_max: 3,
        retry_backoff_ms: 500,
    };
    assert_eq!(cfg.graphql_url, "https://api.runpod.io/graphql");
    assert_eq!(cfg.retry_max, 3);
}

#[test]
fn clock_reads_a_positive_time() {
    let now = halldyll_starter::runpod_state::now_unix_ms();
    assert!(now > 0);
}
