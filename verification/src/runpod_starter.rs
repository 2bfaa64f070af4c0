//! Starting and stopping one existing pod over the service's REST API.
//!
//! The request URLs and the retry policy are the logic of this module and
//! are verified; the HTTP calls themselves live with the caller, which
//! performs one attempt at a time and asks `should_retry` /
//! `next_backoff` how to continue.

use vstd::prelude::*;
use vstd::string::*;

verus! {

/// `rest_url` with its trailing slashes removed.
pub open spec fn trimmed_slashes(s: Seq<char>) -> Seq<char>
    decreases s.len(),
{
    if s.len() > 0 && s[s.len() - 1] == '/' {
        trimmed_slashes(s.take(s.len() - 1))
    } else {
        s
    }
}

/// Remove trailing slashes.
pub fn trim_trailing_slashes(s: &str) -> (r: &str)
    ensures
        r@ == trimmed_slashes(s@),
{
    let mut end = s.unicode_len();
    proof {
        assert(s@.take(s@.len() as int) =~= s@);
    }
    loop
        invariant
            end <= s@.len(),
            trimmed_slashes(s@) == trimmed_slashes(s@.take(end as int)),
        decreases end,
    {
        if end == 0 {
            proof {
                assert(s@.take(0).len() == 0);
            }
            return s.substring_char(0, 0);
        }
        let c = s.get_char(end - 1);
        if c != '/' {
            proof {
                assert(s@.take(end as int)[end as int - 1] == s@[end as int - 1]);
            }
            return s.substring_char(0, end);
        }
        proof {
            assert(s@.take(end as int)[end as int - 1] == s@[end as int - 1]);
            assert(s@.take(end as int).take(end as int - 1) =~= s@.take(end as int - 1));
        }
        end = end - 1;
    }
}

/// The base URL of one pod: the service root, slash-trimmed, then
/// `/pods/` and the pod id.
pub open spec fn spec_pod_url(rest_url: Seq<char>, pod_id: Seq<char>) -> Seq<char> {
    trimmed_slashes(rest_url) + "/pods/"@ + pod_id
}

/// Configuration for starting/resuming one pod.
#[derive(Debug)]
pub struct RunpodStarterConfig {
    /// API key for authentication.
    pub api_key: String,
    /// REST root URL of the service.
    pub rest_url: String,
    /// Pod id to start or stop.
    pub pod_id: String,
    /// HTTP request timeout in milliseconds.
    pub timeout_ms: u64,
    /// Maximum number of retry attempts.
    pub retry_max: u32,
    /// Initial backoff between retries in milliseconds.
    pub retry_backoff_ms: u64,
    /// User agent for HTTP requests.
    pub user_agent: String,
}

impl RunpodStarterConfig {
    /// The start URL for the configured pod.
    pub fn start_url(&self) -> (r: String)
        ensures
            r@ == spec_pod_url(self.rest_url@, self.pod_id@) + "/start"@,
    {
        let trimmed = trim_trailing_slashes(self.rest_url.as_str());
        let mut out = trimmed.to_owned();
        out.append("/pods/");
        out.append(self.pod_id.as_str());
        out.append("/start");
        out
    }

    /// The stop URL for the configured pod.
    pub fn stop_url(&self) -> (r: String)
        ensures
            r@ == spec_pod_url(self.rest_url@, self.pod_id@) + "/stop"@,
    {
        let trimmed = trim_trailing_slashes(self.rest_url.as_str());
        let mut out = trimmed.to_owned();
        out.append("/pods/");
        out.append(self.pod_id.as_str());
        out.append("/stop");
        out
    }
}

/// Whether an HTTP status is worth retrying: request timeout, conflict,
/// too-early, too-many-requests, or one of the usual transient server
/// failures.
pub fn is_retryable_status(status: u16) -> (r: bool)
    ensures
        r == (status == 408 || status == 409 || status == 425 || status == 429 || status == 500
            || status == 502 || status == 503 || status == 504),
{
    matches!(status, 408 | 409 | 425 | 429 | 500 | 502 | 503 | 504)
}

/// Whether one more attempt should be made: the attempt count has not
/// passed the configured maximum and the failure was transient.
pub fn should_retry(attempt: u32, retry_max: u32, transient: bool) -> (r: bool)
    ensures
        r == (attempt <= retry_max && transient),
{
    attempt <= retry_max && transient
}

/// The next backoff: doubled, capped at five seconds.
pub fn next_backoff(current_ms: u64) -> (r: u64)
    ensures
        r == if current_ms >= 2500 {
            5000u64
        } else {
            (2 * current_ms) as u64
        },
{
    if current_ms >= 2500 {
        5000
    } else {
        2 * current_ms
    }
}

} // verus!
