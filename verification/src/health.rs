//! The health probe: one GET to the backend's health endpoint, with a short
//! timeout, collapsed into a boolean. The request itself is the caller's work;
//! this module says what to ask for and what the outcome means.

use vstd::prelude::*;
use vstd::string::*;

verus! {

/// How long the caller waits for the health endpoint's response, in seconds.
pub const HEALTH_TIMEOUT_SECS: u64 = 2;

/// The address of the backend's health endpoint.
pub open spec fn health_url_text() -> Seq<char> {
    "http://localhost:8000/api/health"@
}

/// What the caller sends for one probe: a GET to `url`, given up after
/// `timeout_secs` seconds.
#[derive(Debug, PartialEq, Eq)]
pub struct HealthRequest {
    pub url: String,
    pub timeout_secs: u64,
}

/// How one probe ended.
#[derive(Debug, Clone, Copy, PartialEq, Eq)]
pub enum ProbeOutcome {
    /// A response came in time, with this HTTP status code.
    Status(u16),
    /// No response: the connection failed, the transfer broke, or the
    /// timeout passed.
    Unreachable,
}

/// Whether an HTTP status code is in the success range, 200 to 299.
pub open spec fn is_success(status: u16) -> bool {
    200 <= status < 300
}

/// Whether a probe found the backend healthy: it did if and only if a
/// response came and its status is in the success range.
pub open spec fn healthy(outcome: ProbeOutcome) -> bool {
    match outcome {
        ProbeOutcome::Status(status) => is_success(status),
        ProbeOutcome::Unreachable => false,
    }
}

/// The request of a health probe. Every probe sends the same one.
pub fn health_request() -> (request: HealthRequest)
    ensures
        request.url@ == health_url_text(),
        request.timeout_secs == HEALTH_TIMEOUT_SECS,
{
    HealthRequest {
        url: String::from_str("http://localhost:8000/api/health"),
        timeout_secs: HEALTH_TIMEOUT_SECS,
    }
}

/// Whether a probe found the backend healthy. A failure to get a response
/// is no error: it means not healthy, like a status outside the success range.
pub fn check_backend_health(outcome: ProbeOutcome) -> (up: bool)
    ensures
        up == healthy(outcome),
{
    match outcome {
        ProbeOutcome::Status(status) => 200 <= status && status < 300,
        ProbeOutcome::Unreachable => false,
    }
}

} // verus!
