//! Data model and policy for the service's GraphQL API client.
//!
//! The request/response shapes are mirrored here as plain value types;
//! the retry policy and the joining of reported errors are the verified
//! logic.  The HTTP transport and JSON wire handling live with the
//! caller.

use vstd::prelude::*;
use vstd::string::*;

verus! {

/// Configuration for the GraphQL client.
#[derive(Debug)]
pub struct RunpodClientConfig {
    /// API key for authentication.
    pub api_key: String,
    /// GraphQL endpoint URL.
    pub graphql_url: String,
    /// HTTP request timeout in milliseconds.
    pub timeout_ms: u64,
    /// Maximum number of retry attempts.
    pub retry_max: u32,
    /// Initial backoff between retries in milliseconds.
    pub retry_backoff_ms: u64,
}

/// Whether an HTTP status is worth retrying; the same transient set as
/// the starter's.
pub fn is_retryable_status(status: u16) -> (r: bool)
    ensures
        r == (status == 408 || status == 409 || status == 425 || status == 429 || status == 500
            || status == 502 || status == 503 || status == 504),
{
    matches!(status, 408 | 409 | 425 | 429 | 500 | 502 | 503 | 504)
}

/// The next backoff: doubled, capped at ten seconds.
pub fn next_backoff(current_ms: u64) -> (r: u64)
    ensures
        r == if current_ms >= 5000 {
            10000u64
        } else {
            (2 * current_ms) as u64
        },
{
    if current_ms >= 5000 {
        10000
    } else {
        2 * current_ms
    }
}

/// The given parts joined with the separator between them.
pub open spec fn spec_join(parts: Seq<Seq<char>>, sep: Seq<char>) -> Seq<char>
    decreases parts.len(),
{
    if parts.len() == 0 {
        Seq::<char>::empty()
    } else if parts.len() == 1 {
        parts[0]
    } else {
        parts[0] + sep + spec_join(parts.skip(1), sep)
    }
}

/// Joining distributes over appending one more part.
proof fn lemma_join_snoc(parts: Seq<Seq<char>>, sep: Seq<char>, last: Seq<char>)
    ensures
        spec_join(parts.push(last), sep) == if parts.len() == 0 {
            last
        } else {
            spec_join(parts, sep) + sep + last
        },
    decreases parts.len(),
{
    if parts.len() == 0 {
        assert(parts.push(last)[0] == last);
    } else {
        assert(parts.push(last)[0] == parts[0]);
        assert(parts.push(last).skip(1) =~= parts.skip(1).push(last));
        lemma_join_snoc(parts.skip(1), sep, last);
        if parts.len() > 1 {
            assert(parts[0] + sep + (spec_join(parts.skip(1), sep) + sep + last) =~= (parts[0] + sep
                + spec_join(parts.skip(1), sep)) + sep + last);
        }
    }
}

/// Join reported error messages with the separator, first to last.
pub fn join_messages(parts: &Vec<String>, sep: &str) -> (r: String)
    ensures
        r@ == spec_join(parts@.map_values(|s: String| s@), sep@),
{
    let mut out = String::new();
    let n = parts.len();
    let mut i: usize = 0;
    proof {
        assert(parts@.take(0).map_values(|s: String| s@) =~= Seq::<Seq<char>>::empty());
    }
    while i < n
        invariant
            i <= n,
            n == parts@.len(),
            out@ == spec_join(parts@.take(i as int).map_values(|s: String| s@), sep@),
        decreases n - i,
    {
        if i > 0 {
            out.append(sep);
        }
        out.append(parts[i].as_str());
        proof {
            let mapped = parts@.take(i as int).map_values(|s: String| s@);
            lemma_join_snoc(mapped, sep@, parts@[i as int]@);
            assert(parts@.take(i as int + 1).map_values(|s: String| s@) =~= mapped.push(
                parts@[i as int]@,
            ));
            if i == 0 {
                assert(Seq::<char>::empty() + parts@[0]@ =~= parts@[0]@);
            }
        }
        i += 1;
    }
    proof {
        assert(parts@.take(n as int) =~= parts@);
    }
    out
}

/// Input for deploying a pod (on-demand or spot), mirroring the API's
/// field names.
#[derive(Debug)]
#[allow(non_snake_case)]
pub struct DeployPodInput {
    /// Cloud type: `SECURE` or `COMMUNITY`.
    pub cloudType: String,
    /// GPU count.
    pub gpuCount: u32,
    /// Volume size in GB.
    pub volumeInGb: u32,
    /// Container disk size in GB.
    pub containerDiskInGb: u32,
    /// Minimum vCPU count.
    pub minVcpuCount: u32,
    /// Minimum RAM in GB.
    pub minMemoryInGb: u32,
    /// GPU type id.
    pub gpuTypeId: String,
    /// Pod name.
    pub name: String,
    /// Container image name.
    pub imageName: String,
    /// Docker arguments.
    pub dockerArgs: Option<String>,
    /// Exposed ports, comma-separated `<port>/<protocol>` entries.
    pub ports: Option<String>,
    /// Volume mount path.
    pub volumeMountPath: String,
    /// Environment variables.
    pub env: Option<Vec<EnvVar>>,
    /// Template id.
    pub templateId: Option<String>,
    /// Network volume id.
    pub networkVolumeId: Option<String>,
    /// Whether to start SSH.
    pub startSsh: Option<bool>,
    /// Whether to start Jupyter.
    pub startJupyter: Option<bool>,
}

/// One environment variable of a pod.
#[derive(Debug)]
pub struct EnvVar {
    /// Variable key.
    pub key: String,
    /// Variable value.
    pub value: String,
}

/// Result of a pod deployment.
#[derive(Debug)]
#[allow(non_snake_case)]
pub struct PodDeployResult {
    /// Pod id.
    pub id: String,
    /// Pod name.
    pub name: Option<String>,
    /// Reported lifecycle status.
    pub desiredStatus: Option<String>,
    /// Image name.
    pub imageName: Option<String>,
    /// Machine id.
    pub machineId: Option<String>,
    /// Machine details.
    pub machine: Option<MachineInfo>,
}

/// Machine information.
#[derive(Debug)]
#[allow(non_snake_case)]
pub struct MachineInfo {
    /// Pod host id.
    pub podHostId: Option<String>,
}

/// Minimal information on one pod.
#[derive(Debug)]
#[allow(non_snake_case)]
pub struct PodSummary {
    /// Pod id.
    pub id: String,
    /// Pod name.
    pub name: Option<String>,
    /// Reported lifecycle status.
    pub desiredStatus: Option<String>,
    /// Image name.
    pub imageName: Option<String>,
    /// Machine id.
    pub machineId: Option<String>,
}

/// One port mapping of a running pod.
#[derive(Debug)]
#[allow(non_snake_case)]
pub struct PortMapping {
    /// IP address.
    pub ip: Option<String>,
    /// Whether the IP is public.
    pub isIpPublic: Option<bool>,
    /// Private (container) port.
    pub privatePort: Option<u16>,
    /// Public port.
    pub publicPort: Option<u16>,
    /// Port type (tcp/http).
    pub port_type: Option<String>,
}

/// One GPU type the service offers.
#[derive(Debug)]
#[allow(non_snake_case)]
pub struct GpuType {
    /// GPU type id.
    pub id: String,
    /// Display name.
    pub displayName: Option<String>,
    /// Memory in GB.
    pub memoryInGb: Option<u32>,
    /// Available in the secure cloud.
    pub secureCloud: Option<bool>,
    /// Available in the community cloud.
    pub communityCloud: Option<bool>,
}

} // verus!
