//! Reading the answer of a health endpoint.
use vstd::prelude::*;

verus! {

/// Endpoint that lists the engine's models; it also tells whether the engine is up.
pub const ENGINE_TAGS_URL: &'static str = "http://localhost:11434/api/tags";

/// Health endpoint of the backend.
pub const BACKEND_HEALTH_URL: &'static str = "http://localhost:8000/api/health";

/// Time allowed to each health request, in seconds.
pub const PROBE_TIMEOUT_SECS: u64 = 5;

/// What came back from a health request.
#[derive(Clone, Copy, Debug, PartialEq, Eq, Structural)]
pub enum ProbeOutcome {
    /// No response: refused connection, timeout or any other transport error.
    Unreachable,
    /// A response with this HTTP status code.
    Responded(u16),
}

/// An HTTP status in the success class.
pub open spec fn is_success_code(code: u16) -> bool {
    200 <= code && code < 300
}

/// A probe finds the service up exactly when it answered with a success status.
pub open spec fn probe_up(outcome: ProbeOutcome) -> bool {
    match outcome {
        ProbeOutcome::Unreachable => false,
        ProbeOutcome::Responded(code) => is_success_code(code),
    }
}

/// Relies on reqwest::StatusCode::from_u16, which refuses codes below 100 or
/// above 999, and on StatusCode::is_success, which holds for 200 to 299.
#[verifier::external_body]
fn code_is_success(code: u16) -> (r: Option<bool>)
    ensures
        r == (if 100 <= code && code <= 999 {
            Some(is_success_code(code))
        } else {
            None::<bool>
        }),
{
    reqwest::StatusCode::from_u16(code).ok().map(|s| s.is_success())
}

/// Turns the outcome of a health request into "up" or "down"; a failed request
/// is "down" and never an error.
pub fn probe_result(outcome: ProbeOutcome) -> (up: bool)
    ensures
        up == probe_up(outcome),
        outcome == ProbeOutcome::Unreachable ==> !up,
        forall|code: u16| outcome == ProbeOutcome::Responded(code) && !is_success_code(code) ==> !up,
{
    match outcome {
        ProbeOutcome::Unreachable => false,
        ProbeOutcome::Responded(code) => match code_is_success(code) {
            Some(ok) => ok,
            None => false,
        },
    }
}

} // verus!
