//! High-level pod orchestration: the decision logic.
//!
//! The orchestrator's caller lists pods, starts, creates and terminates
//! them over the network; every decision in between is verified here:
//! which existing pod to use (`plan_ensure`), whether a pod is compatible
//! (`is_compatible`), how a fetched status is classified
//! (`classify_pod_response`), and whether a fetched pod detail satisfies
//! readiness (`wait_ready_step`) — running, a non-empty public address,
//! and every required port mapped.

use crate::json_text::{append_u64, dec_digits, is_digit, digit_val, lemma_parse_digits_ge_acc,
    lemma_skip_add, parse_digits, str_eq};
use std::collections::HashMap;
use vstd::prelude::*;
use vstd::string::*;

verus! {

broadcast use vstd::std_specs::hash::group_hash_axioms;

/// Mode for reconciling existing pods.
#[derive(Debug, Clone, PartialEq, Eq, Structural)]
pub enum ReconcileMode {
    /// Reuse compatible existing pods.
    Reuse,
    /// Always recreate pods.
    Recreate,
}

impl Default for ReconcileMode {
    /// The default mode is to reuse.
    fn default() -> (r: Self)
        ensures
            r is Reuse,
    {
        ReconcileMode::Reuse
    }
}

/// Configuration for the orchestrator.
#[derive(Debug)]
pub struct RunpodOrchestratorConfig {
    /// API key for authentication.
    pub api_key: String,
    /// REST root URL of the service.
    pub rest_url: String,
    /// Pod name to find or create.
    pub pod_name: String,
    /// Container image name.
    pub image_name: String,
    /// Required ports, as `<port>/<protocol>` entries.
    pub required_ports: Vec<String>,
    /// GPU type ids.
    pub gpu_type_ids: Vec<String>,
    /// HTTP request timeout in milliseconds.
    pub timeout_ms: u64,
    /// Maximum time to wait for pod readiness in milliseconds.
    pub ready_timeout_ms: u64,
    /// Poll interval for readiness checks in milliseconds.
    pub poll_interval_ms: u64,
    /// Reconcile mode when a pod exists.
    pub reconcile_mode: ReconcileMode,
}

/// Basic pod information from the list endpoint.
#[derive(Debug)]
#[allow(non_snake_case)]
pub struct PodInfo {
    /// Pod id.
    pub id: String,
    /// Pod name.
    pub name: Option<String>,
    /// Reported lifecycle status.
    pub desiredStatus: Option<String>,
    /// Image name.
    pub imageName: Option<String>,
    /// Machine id.
    pub machineId: Option<String>,
}

/// Detailed pod information from the detail endpoint.  Port mappings
/// come as (container port text, public port) entries, in response
/// order.
#[derive(Debug)]
#[allow(non_snake_case)]
pub struct PodDetails {
    /// Pod id.
    pub id: String,
    /// Pod name.
    pub name: Option<String>,
    /// Reported lifecycle status.
    pub desiredStatus: Option<String>,
    /// Image name.
    pub imageName: Option<String>,
    /// Public IP address.
    pub publicIp: Option<String>,
    /// Port mappings (container port text, public port).
    pub portMappings: Option<Vec<(String, u16)>>,
    /// Exposed ports.
    pub ports: Option<Vec<String>>,
}

/// Handle to a ready pod with connection helpers.
#[derive(Debug)]
pub struct PodLease {
    /// Pod id.
    pub id: String,
    /// Pod name.
    pub name: String,
    /// Public IP address.
    pub public_ip: String,
    /// Port mappings: container port to public port.
    pub port_mappings: HashMap<u16, u16>,
    /// Reported lifecycle status.
    pub desired_status: String,
}

impl PodLease {
    /// The SSH endpoint (address, public port), if port 22 is mapped.
    pub fn ssh_endpoint(&self) -> (r: Option<(&str, u16)>)
        ensures
            match r {
                Some(p) => self.port_mappings@.contains_key(22) && p.1 == self.port_mappings@[22]
                    && p.0@ == self.public_ip@,
                None => !self.port_mappings@.contains_key(22),
            },
    {
        match self.port_mappings.get(&22u16) {
            Some(port) => Some((self.public_ip.as_str(), *port)),
            None => None,
        }
    }

    /// The HTTP URL for a container port, if it is mapped.
    pub fn http_endpoint(&self, container_port: u16) -> (r: Option<String>)
        ensures
            match r {
                Some(url) => self.port_mappings@.contains_key(container_port) && url@ == "http://"@
                    + self.public_ip@ + ":"@ + dec_digits(
                    self.port_mappings@[container_port] as nat,
                ),
                None => !self.port_mappings@.contains_key(container_port),
            },
    {
        match self.port_mappings.get(&container_port) {
            Some(port) => {
                let mut out = String::new();
                out.append("http://");
                proof {
                    assert(Seq::<char>::empty() + "http://"@ =~= "http://"@);
                }
                out.append(self.public_ip.as_str());
                out.append(":");
                append_u64(&mut out, *port as u64);
                Some(out)
            },
            None => None,
        }
    }

    /// The Jupyter URL (container port 8888), if mapped.
    pub fn jupyter_endpoint(&self) -> (r: Option<String>)
        ensures
            match r {
                Some(url) => self.port_mappings@.contains_key(8888) && url@ == "http://"@
                    + self.public_ip@ + ":"@ + dec_digits(self.port_mappings@[8888] as nat),
                None => !self.port_mappings@.contains_key(8888),
            },
    {
        self.http_endpoint(8888)
    }

    /// The raw TCP endpoint (address, public port) for a container port,
    /// if it is mapped.
    pub fn tcp_endpoint(&self, container_port: u16) -> (r: Option<(String, u16)>)
        ensures
            match r {
                Some(p) => self.port_mappings@.contains_key(container_port) && p.1
                    == self.port_mappings@[container_port] && p.0@ == self.public_ip@,
                None => !self.port_mappings@.contains_key(container_port),
            },
    {
        match self.port_mappings.get(&container_port) {
            Some(port) => Some((self.public_ip.clone(), *port)),
            None => None,
        }
    }
}

// ---------------------------------------------------------------------------
// Port specifications
// ---------------------------------------------------------------------------

/// Fold leading digits onto `acc`, stopping at the end or at a slash;
/// anything else rejects.
pub open spec fn spec_port_digits(t: Seq<char>, acc: nat) -> Option<nat>
    decreases t.len(),
{
    if t.len() == 0 {
        Some(acc)
    } else if t[0] == '/' {
        Some(acc)
    } else if is_digit(t[0]) {
        spec_port_digits(t.skip(1), acc * 10 + digit_val(t[0]))
    } else {
        None
    }
}

/// The port number of a `<port>/<protocol>` entry: the digits before the
/// first slash, non-empty, all digits, fitting a `u16`.
pub open spec fn spec_port_of(s: Seq<char>) -> Option<u16> {
    if s.len() == 0 || s[0] == '/' {
        None
    } else {
        match spec_port_digits(s, 0) {
            Some(v) => if v <= u16::MAX {
                Some(v as u16)
            } else {
                None
            },
            None => None,
        }
    }
}

/// The folded port value never falls below the accumulator.
proof fn lemma_port_digits_ge_acc(t: Seq<char>, acc: nat)
    ensures
        spec_port_digits(t, acc) matches Some(v) ==> v >= acc,
    decreases t.len(),
{
    if t.len() > 0 && t[0] != '/' && is_digit(t[0]) {
        lemma_port_digits_ge_acc(t.skip(1), acc * 10 + digit_val(t[0]));
    }
}

/// Parse the port number of a `<port>/<protocol>` entry.
pub fn parse_port_spec(s: &str) -> (r: Option<u16>)
    ensures
        r == spec_port_of(s@),
{
    let n = s.unicode_len();
    if n == 0 {
        return None;
    }
    let c0 = s.get_char(0);
    if c0 == '/' {
        return None;
    }
    let mut acc: u32 = 0;
    let mut j: usize = 0;
    proof {
        assert(s@.skip(0) =~= s@);
    }
    loop
        invariant
            j <= n,
            n == s@.len(),
            s@.len() > 0,
            s@[0] != '/',
            acc <= 65535,
            spec_port_digits(s@, 0) == spec_port_digits(s@.skip(j as int), acc as nat),
        decreases n - j,
    {
        if j == n {
            proof {
                assert(s@.skip(j as int).len() == 0);
            }
            return Some(acc as u16);
        }
        let c = s.get_char(j);
        proof {
            assert(s@.skip(j as int)[0] == s@[j as int]);
        }
        if c == '/' {
            return Some(acc as u16);
        }
        let u = c as u32;
        if !(48 <= u && u <= 57) {
            return None;
        }
        let d = u - 48;
        let next = acc * 10 + d;
        if next > 65535 {
            proof {
                lemma_port_digits_ge_acc(s@.skip(j as int + 1), acc as nat * 10 + d as nat);
                lemma_skip_add(s@, j as int, 1);
            }
            return None;
        }
        proof {
            lemma_skip_add(s@, j as int, 1);
        }
        acc = next;
        j = j + 1;
    }
}

/// Strict `u16` text: non-empty, all digits, fitting a `u16`.
pub open spec fn spec_parse_u16_all(t: Seq<char>) -> Option<u16> {
    if t.len() > 0 && is_digit(t[0]) {
        let (v, rest) = parse_digits(t, 0);
        if rest.len() == 0 && v <= u16::MAX {
            Some(v as u16)
        } else {
            None
        }
    } else {
        None
    }
}

/// Parse a whole string as a `u16`.
pub fn parse_u16_all(s: &str) -> (r: Option<u16>)
    ensures
        r == spec_parse_u16_all(s@),
{
    let n = s.unicode_len();
    if n == 0 {
        return None;
    }
    let c0 = s.get_char(0);
    let u0 = c0 as u32;
    proof {
        assert(s@.skip(0) =~= s@);
    }
    if !(48 <= u0 && u0 <= 57) {
        return None;
    }
    let mut acc: u32 = 0;
    let mut j: usize = 0;
    loop
        invariant
            j <= n,
            n == s@.len(),
            s@.len() > 0,
            is_digit(s@[0]),
            acc <= 65535,
            parse_digits(s@, 0) == parse_digits(s@.skip(j as int), acc as nat),
        decreases n - j,
    {
        if j == n {
            proof {
                assert(s@.skip(j as int).len() == 0);
            }
            return Some(acc as u16);
        }
        let c = s.get_char(j);
        proof {
            assert(s@.skip(j as int)[0] == s@[j as int]);
        }
        let u = c as u32;
        if !(48 <= u && u <= 57) {
            proof {
                assert(s@.skip(j as int).len() > 0);
            }
            return None;
        }
        let d = u - 48;
        let next = acc * 10 + d;
        if next > 65535 {
            proof {
                assert(parse_digits(s@.skip(j as int), acc as nat) == parse_digits(
                    s@.skip(j as int).skip(1),
                    acc as nat * 10 + d as nat,
                ));
                lemma_parse_digits_ge_acc(s@.skip(j as int).skip(1), acc as nat * 10 + d as nat);
            }
            return None;
        }
        proof {
            lemma_skip_add(s@, j as int, 1);
        }
        acc = next;
        j = j + 1;
    }
}

// ---------------------------------------------------------------------------
// Readiness
// ---------------------------------------------------------------------------

/// The port map of the given mapping entries: each key parsed strictly
/// as a `u16`, later entries overriding earlier ones, unparsable keys
/// skipped.
pub open spec fn spec_port_map(entries: Seq<(String, u16)>) -> Map<u16, u16>
    decreases entries.len(),
{
    if entries.len() == 0 {
        Map::<u16, u16>::empty()
    } else {
        let m = spec_port_map(entries.drop_last());
        match spec_parse_u16_all(entries.last().0@) {
            Some(p) => m.insert(p, entries.last().1),
            None => m,
        }
    }
}

/// Build the port map of the given mapping entries.
pub fn build_port_mappings(entries: &Vec<(String, u16)>) -> (r: HashMap<u16, u16>)
    ensures
        r@ == spec_port_map(entries@),
{
    let mut m: HashMap<u16, u16> = HashMap::new();
    let n = entries.len();
    let mut i: usize = 0;
    proof {
        assert(entries@.take(0) =~= Seq::<(String, u16)>::empty());
    }
    while i < n
        invariant
            i <= n,
            n == entries@.len(),
            m@ == spec_port_map(entries@.take(i as int)),
        decreases n - i,
    {
        let entry = &entries[i];
        match parse_u16_all(entry.0.as_str()) {
            Some(p) => {
                m.insert(p, entry.1);
            },
            None => {},
        }
        proof {
            assert(entries@.take(i as int + 1).drop_last() =~= entries@.take(i as int));
            assert(entries@.take(i as int + 1).last() == entries@[i as int]);
        }
        i = i + 1;
    }
    proof {
        assert(entries@.take(n as int) =~= entries@);
    }
    m
}

/// The port map a pod detail carries.
pub open spec fn spec_detail_port_map(pod: PodDetails) -> Map<u16, u16> {
    match pod.portMappings {
        Some(entries) => spec_port_map(entries@),
        None => Map::<u16, u16>::empty(),
    }
}

/// Whether one required `<port>/<protocol>` entry is satisfied by the
/// port map: its port number parses and is mapped.
pub open spec fn spec_required_port_ok(port_spec: String, m: Map<u16, u16>) -> bool {
    match spec_port_of(port_spec@) {
        Some(p) => m.contains_key(p),
        None => false,
    }
}

/// Whether a pod detail satisfies readiness: reported running, a
/// non-empty public address, and every required port mapped.
pub open spec fn spec_pod_ready(pod: PodDetails, required_ports: Seq<String>) -> bool {
    &&& pod.desiredStatus matches Some(s) && s@ == "RUNNING"@
    &&& pod.publicIp matches Some(ip) && ip@.len() > 0
    &&& forall|k: int|
        0 <= k < required_ports.len() ==> spec_required_port_ok(
            required_ports[k],
            spec_detail_port_map(pod),
        )
}

/// One step of the readiness poll.
#[derive(Debug)]
pub enum WaitStep {
    /// The deadline has passed: fail with a timeout.
    Timeout,
    /// The pod no longer exists: fail immediately, it will not reappear.
    Vanished,
    /// Not ready yet: poll again after the configured interval.
    RetryLater,
    /// Ready: the resolved lease.
    Ready(PodLease),
}

/// Decide one step of the readiness poll from the elapsed time and the
/// fetched pod detail.  The caller owns the loop, the fetching and the
/// sleeping; this function owns the whole decision.
#[verifier::loop_isolation(false)]
pub fn wait_ready_step(
    elapsed_ms: u64,
    timeout_ms: u64,
    detail: Option<PodDetails>,
    required_ports: &Vec<String>,
) -> (r: WaitStep)
    ensures
        match r {
            WaitStep::Timeout => elapsed_ms > timeout_ms,
            WaitStep::Vanished => elapsed_ms <= timeout_ms && detail is None,
            WaitStep::RetryLater => elapsed_ms <= timeout_ms && (detail matches Some(pod)
                && !spec_pod_ready(pod, required_ports@)),
            WaitStep::Ready(lease) => elapsed_ms <= timeout_ms && (detail matches Some(pod)
                && spec_pod_ready(pod, required_ports@) && lease.id@ == pod.id@ && lease.name@ == (
            match pod.name {
                Some(n) => n@,
                None => Seq::<char>::empty(),
            }) && (pod.publicIp matches Some(ip) && lease.public_ip@ == ip@)
                && lease.port_mappings@ == spec_detail_port_map(pod) && lease.desired_status@ == (
            match pod.desiredStatus {
                Some(st) => st@,
                None => Seq::<char>::empty(),
            })),
        },
{
    if elapsed_ms > timeout_ms {
        return WaitStep::Timeout;
    }
    let pod = match detail {
        Some(pod) => pod,
        None => {
            return WaitStep::Vanished;
        },
    };
    let running = match &pod.desiredStatus {
        Some(status) => str_eq(status.as_str(), "RUNNING"),
        None => false,
    };
    if !running {
        return WaitStep::RetryLater;
    }
    let ip_ok = match &pod.publicIp {
        Some(ip) => ip.as_str().unicode_len() > 0,
        None => false,
    };
    if !ip_ok {
        return WaitStep::RetryLater;
    }
    let mappings = match &pod.portMappings {
        Some(entries) => build_port_mappings(entries),
        None => HashMap::new(),
    };
    let n = required_ports.len();
    let mut k: usize = 0;
    while k < n
        invariant
            k <= n,
            n == required_ports@.len(),
            mappings@ == spec_detail_port_map(pod),
            forall|m: int|
                0 <= m < k ==> spec_required_port_ok(
                    required_ports@[m],
                    spec_detail_port_map(pod),
                ),
        decreases n - k,
    {
        let ok = match parse_port_spec(required_ports[k].as_str()) {
            Some(p) => mappings.contains_key(&p),
            None => false,
        };
        if !ok {
            proof {
                assert(!spec_required_port_ok(
                    required_ports@[k as int],
                    spec_detail_port_map(pod),
                ));
            }
            return WaitStep::RetryLater;
        }
        k = k + 1;
    }
    let name = match pod.name {
        Some(n) => n,
        None => String::new(),
    };
    let public_ip = match pod.publicIp {
        Some(ip) => ip,
        None => String::new(),
    };
    let desired_status = match pod.desiredStatus {
        Some(st) => st,
        None => String::new(),
    };
    WaitStep::Ready(
        PodLease {
            id: pod.id,
            name: name,
            public_ip: public_ip,
            port_mappings: mappings,
            desired_status: desired_status,
        },
    )
}

// ---------------------------------------------------------------------------
// Choosing a pod
// ---------------------------------------------------------------------------

/// Whether a listed pod carries the given name.
pub open spec fn name_matches(pod: PodInfo, name: Seq<char>) -> bool {
    pod.name matches Some(n) && n@ == name
}

/// Find the first pod with the given name; the index of the first match.
pub fn find_pod_by_name(pods: &Vec<PodInfo>, name: &str) -> (r: Option<usize>)
    ensures
        match r {
            Some(i) => i < pods@.len() && name_matches(pods@[i as int], name@) && forall|j: int|
                0 <= j < i ==> !name_matches(pods@[j], name@),
            None => forall|j: int| 0 <= j < pods@.len() ==> !name_matches(pods@[j], name@),
        },
{
    let n = pods.len();
    let mut i: usize = 0;
    while i < n
        invariant
            i <= n,
            n == pods@.len(),
            forall|j: int| 0 <= j < i ==> !name_matches(pods@[j], name@),
        decreases n - i,
    {
        let matches_name = match &pods[i].name {
            Some(pod_name) => str_eq(pod_name.as_str(), name),
            None => false,
        };
        if matches_name {
            return Some(i);
        }
        i = i + 1;
    }
    None
}

/// Whether a listed pod is compatible with the wanted configuration: it
/// runs the wanted image and is not terminated.
pub open spec fn spec_is_compatible(pod: PodInfo, image_name: Seq<char>) -> bool {
    &&& pod.imageName matches Some(img) && img@ == image_name
    &&& !(pod.desiredStatus matches Some(s) && s@ == "TERMINATED"@)
}

/// Check compatibility of a listed pod.
pub fn is_compatible(pod: &PodInfo, image_name: &str) -> (r: bool)
    ensures
        r == spec_is_compatible(*pod, image_name@),
{
    let image_ok = match &pod.imageName {
        Some(img) => str_eq(img.as_str(), image_name),
        None => false,
    };
    if !image_ok {
        return false;
    }
    let terminated = match &pod.desiredStatus {
        Some(status) => str_eq(status.as_str(), "TERMINATED"),
        None => false,
    };
    !terminated
}

/// The plan for obtaining a ready pod.
#[derive(Debug)]
pub enum EnsurePodPlan {
    /// Use this existing pod; start it first if it is exited.
    UseExisting {
        /// Id of the pod to use.
        pod_id: String,
        /// Whether the pod must be started first.
        start_first: bool,
    },
    /// Terminate this pod, then create a new one.
    Recreate {
        /// Id of the pod to terminate.
        terminate_id: String,
    },
    /// Create a new pod.
    CreateNew,
}

/// Decide how to obtain a ready pod from what the list returned: reuse a
/// compatible pod in reuse mode (starting it if exited), tear down and
/// recreate in recreate mode, create anew otherwise.
pub fn plan_ensure(existing: Option<&PodInfo>, mode: &ReconcileMode, image_name: &str) -> (r:
    EnsurePodPlan)
    ensures
        match existing {
            Some(pod) => if spec_is_compatible(*pod, image_name@) && mode is Reuse {
                r matches EnsurePodPlan::UseExisting { pod_id, start_first } && pod_id@ == pod.id@
                    && start_first == (pod.desiredStatus matches Some(s) && s@ == "EXITED"@)
            } else if mode is Recreate {
                r matches EnsurePodPlan::Recreate { terminate_id } && terminate_id@ == pod.id@
            } else {
                r is CreateNew
            },
            None => r is CreateNew,
        },
{
    match existing {
        None => EnsurePodPlan::CreateNew,
        Some(pod) => {
            let compatible = is_compatible(pod, image_name);
            if compatible && matches!(mode, ReconcileMode::Reuse) {
                let start_first = match &pod.desiredStatus {
                    Some(status) => str_eq(status.as_str(), "EXITED"),
                    None => false,
                };
                EnsurePodPlan::UseExisting { pod_id: pod.id.clone(), start_first: start_first }
            } else if matches!(mode, ReconcileMode::Recreate) {
                EnsurePodPlan::Recreate { terminate_id: pod.id.clone() }
            } else {
                EnsurePodPlan::CreateNew
            }
        },
    }
}

/// How one fetched pod-detail response is to be treated.
#[derive(Debug, Clone, Copy, PartialEq, Eq, Structural)]
pub enum PodFetchDisposition {
    /// The pod does not exist.
    NotFound,
    /// The response carries the pod detail.
    Success,
    /// The request failed.
    Failure,
}

/// Classify a pod-detail response by its HTTP status: not-found on 404,
/// success on the 2xx range, failure otherwise.
pub fn classify_pod_response(status: u16) -> (r: PodFetchDisposition)
    ensures
        r == (if status == 404 {
            PodFetchDisposition::NotFound
        } else if 200 <= status < 300 {
            PodFetchDisposition::Success
        } else {
            PodFetchDisposition::Failure
        }),
{
    if status == 404 {
        PodFetchDisposition::NotFound
    } else if 200 <= status && status < 300 {
        PodFetchDisposition::Success
    } else {
        PodFetchDisposition::Failure
    }
}

} // verus!
