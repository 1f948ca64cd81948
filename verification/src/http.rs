//! The HTTP probe's decision logic: which request timeout applies, and how a
//! request's outcome maps to a probe outcome. The request itself is issued at
//! the unverified edge, which hands back the status code of the response, or
//! nothing where transport failed.

use vstd::prelude::*;

use crate::config::HealthCheckState;

verus! {

/// Whether an HTTP status code lies in the success range (2xx).
pub open spec fn spec_is_success_status(status: u16) -> bool {
    200 <= status < 300
}

/// Map the outcome of one HTTP GET to a probe outcome. `status` holds the
/// response's status code where a response arrived, and is `None` where the
/// request failed in transport (connection refused, malformed target,
/// timeout). The probe passes exactly when a response arrived with a 2xx
/// status; every other outcome is `Failed`.
pub fn classify_http_response(status: Option<u16>) -> (r: HealthCheckState)
    ensures
        r is Passed <==> (status matches Some(s) && spec_is_success_status(s)),
        r is Failed <==> !(status matches Some(s) && spec_is_success_status(s)),
{
    match status {
        Some(s) => {
            if 200 <= s && s < 300 {
                HealthCheckState::Passed
            } else {
                HealthCheckState::Failed
            }
        },
        None => HealthCheckState::Failed,
    }
}

/// The request timeout the probe applies, in seconds: the configured value,
/// or the largest representable wait (effectively unbounded) when none is
/// configured.
pub fn effective_timeout_secs(timeout: &Option<u64>) -> (r: u64)
    ensures
        r == match *timeout { Some(t) => t, None => u64::MAX },
{
    match timeout {
        Some(t) => *t,
        None => u64::MAX,
    }
}

} // verus!
