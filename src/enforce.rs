use std::collections::HashMap;
use vstd::prelude::*;

use crate::cookie::{session_token, token_of};
use crate::service::{DecisionRequest, DecisionResponse};

verus! {

/// Why the decision service gave no answer.
#[derive(Debug, Clone, Copy, PartialEq, Eq)]
pub enum TransportError {
    /// The endpoint is absent or refused the connection.
    Unreachable,
    /// No answer came within `DECISION_TIMEOUT_MS`.
    TimedOut,
    /// The answer cannot be carried out, such as a header HTTP cannot hold.
    Unusable,
}

/// Why the upstream gave no answer.
#[derive(Debug, Clone, Copy, PartialEq, Eq)]
pub enum UpstreamError {
    /// The upstream is absent or refused the connection.
    Unreachable,
    /// No answer came within `UPSTREAM_TIMEOUT_MS`.
    TimedOut,
}

/// A response the enforcement point writes itself.
#[derive(Debug, Clone, PartialEq, Eq)]
pub struct Rejection {
    pub status: u16,
    pub body: String,
}

/// What the enforcement point does once the decision call has ended.
#[derive(Debug)]
pub enum Step {
    /// Answer the client at once; the upstream is not contacted.
    Reject(Rejection),
    /// Forward the request to the upstream, adding these headers alongside
    /// any it already carries.
    Forward { inject: HashMap<String, String> },
}

/// Status for a request the policy denied.
pub const STATUS_FORBIDDEN: u16 = 403;

/// Status for a request whose upstream could not be reached.
pub const STATUS_BAD_GATEWAY: u16 = 502;

/// Status for a request whose decision could not be obtained.
pub const STATUS_SERVICE_UNAVAILABLE: u16 = 503;

/// Longest wait for a decision, in milliseconds.
pub const DECISION_TIMEOUT_MS: u64 = 5000;

/// Longest wait for the upstream, in milliseconds.
pub const UPSTREAM_TIMEOUT_MS: u64 = 30000;

/// `r` is the rejection with `status` and `body`.
pub open spec fn rejects(r: Rejection, status: u16, body: Seq<char>) -> bool {
    r.status == status && r.body@ == body
}

/// Builds the question for the decision service about an HTTP request for
/// `resource`: the session token comes from the `Cookie` header.
pub fn decision_request(
    cookie_header: Option<&str>,
    cookie_name: &str,
    resource: &str,
    peer: &str,
    attributes: HashMap<String, String>,
) -> (req: DecisionRequest)
    ensures
        req.session_token@ == token_of(
            match cookie_header {
                Some(h) => Some(h@),
                None => None,
            },
            cookie_name@,
        ),
        req.protocol@ == "http"@,
        req.resource@ == resource@,
        req.peer@ == peer@,
        req.attributes@ == attributes@,
{
    DecisionRequest {
        session_token: session_token(cookie_header, cookie_name),
        protocol: String::from_str("http"),
        resource: String::from_str(resource),
        peer: String::from_str(peer),
        attributes,
    }
}

/// Acts on the outcome of the decision call. A call that failed is a
/// service-unavailable condition, never a denial; a denial is answered with
/// `forbidden`; a grant forwards the request with the decision's headers.
pub fn after_decision(reply: Result<DecisionResponse, TransportError>) -> (step: Step)
    ensures
        reply is Err ==> step is Reject && rejects(
            step->Reject_0,
            STATUS_SERVICE_UNAVAILABLE,
            "service unavailable"@,
        ),
        reply is Ok && !reply->Ok_0.allow ==> step is Reject && rejects(
            step->Reject_0,
            STATUS_FORBIDDEN,
            "forbidden"@,
        ),
        reply is Ok && reply->Ok_0.allow ==> step is Forward && step->inject@
            == reply->Ok_0.inject@,
{
    match reply {
        Err(_) => Step::Reject(
            Rejection {
                status: STATUS_SERVICE_UNAVAILABLE,
                body: String::from_str("service unavailable"),
            },
        ),
        Ok(d) => if d.allow {
            Step::Forward { inject: d.inject }
        } else {
            Step::Reject(Rejection { status: STATUS_FORBIDDEN, body: String::from_str("forbidden") })
        },
    }
}

/// Acts on the outcome of forwarding: `None` when the upstream answered and
/// its response is relayed as it is, a `bad gateway` rejection when it did
/// not. The request is never retried.
pub fn after_upstream<T>(outcome: Result<T, UpstreamError>) -> (r: Option<Rejection>)
    ensures
        outcome is Ok ==> r is None,
        outcome is Err ==> r is Some && rejects(r->Some_0, STATUS_BAD_GATEWAY, "bad gateway"@),
{
    match outcome {
        Ok(_) => None,
        Err(_) => Some(Rejection { status: STATUS_BAD_GATEWAY, body: String::from_str("bad gateway") }),
    }
}

} // verus!
