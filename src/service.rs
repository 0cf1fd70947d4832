use std::collections::HashMap;
use vstd::prelude::*;

use crate::policy::{group_names, verdict_of, Policy, Verdict};

verus! {

/// A question put to the decision service.
#[derive(Debug, Clone)]
pub struct DecisionRequest {
    pub session_token: String,
    pub protocol: String,
    pub resource: String,
    pub peer: String,
    pub attributes: HashMap<String, String>,
}

/// The decision service's answer.
#[derive(Debug, Clone)]
pub struct DecisionResponse {
    pub allow: bool,
    pub expiry: String,
    pub claims: HashMap<String, String>,
    pub inject: HashMap<String, String>,
    pub reason: String,
}

/// Who the caller is, as the identity resolver found it.
#[derive(Debug, Clone)]
pub struct Identity {
    pub groups: Vec<String>,
    pub claims: HashMap<String, String>,
}

/// Why the identity resolver could not name the caller.
#[derive(Debug, Clone, Copy, PartialEq, Eq)]
pub enum AuthError {
    /// No credential was presented.
    MissingToken,
    /// The credential was presented but not accepted.
    Rejected,
}

/// Why a decision could not be given.
#[derive(Debug, Clone, Copy, PartialEq, Eq)]
pub enum DecisionError {
    /// The protocol or the resource of the request is empty.
    MalformedRequest,
    /// The clock read before the epoch, or gave an instant whose expiry
    /// cannot be written down.
    ClockOutOfRange,
}

/// How long a decision may be relied on, in seconds.
pub const DECISION_TTL_SECONDS: i64 = 1800;

/// The request names both a protocol and a resource.
pub open spec fn well_formed(req: DecisionRequest) -> bool {
    req.protocol@.len() > 0 && req.resource@.len() > 0
}

/// The caller is known: a credential was presented and resolved.
pub open spec fn authenticated(req: DecisionRequest, resolved: Result<Identity, AuthError>) -> bool {
    req.session_token@.len() > 0 && resolved is Ok
}

/// The policy's verdict for a request of a known caller.
pub open spec fn verdict_for(policy: Policy, req: DecisionRequest, id: Identity) -> Verdict {
    verdict_of(policy.rules@, req.protocol@, req.resource@, group_names(id.groups@))
}

/// The headers to add when the verdict grants access; none otherwise.
pub open spec fn granted_headers(v: Verdict) -> Map<String, String> {
    if v.allow {
        match v.inject {
            Some(m) => m,
            None => Map::empty(),
        }
    } else {
        Map::empty()
    }
}

/// `resp` is the service's answer to `req`, with `expiry` as its expiry.
pub open spec fn answers(
    policy: Policy,
    req: DecisionRequest,
    resolved: Result<Identity, AuthError>,
    expiry: Seq<char>,
    resp: DecisionResponse,
) -> bool {
    &&& resp.expiry@ == expiry
    &&& if authenticated(req, resolved) {
        let id = resolved->Ok_0;
        let v = verdict_for(policy, req, id);
        &&& resp.allow == v.allow
        &&& resp.reason@ == v.reason
        &&& resp.claims@ == id.claims@
        &&& resp.inject@ == granted_headers(v)
    } else {
        &&& !resp.allow
        &&& resp.reason@ == "unauthenticated"@
        &&& resp.claims@ == Map::<String, String>::empty()
        &&& resp.inject@ == Map::<String, String>::empty()
    }
}

/// Answers a well-formed request. An empty credential, or one the resolver
/// refused, is denied as `unauthenticated`; otherwise the policy decides on
/// the resolved groups, and headers are injected only when access is
/// granted.
pub fn respond(
    policy: &Policy,
    req: &DecisionRequest,
    resolved: Result<Identity, AuthError>,
    expiry: String,
) -> (resp: DecisionResponse)
    requires
        well_formed(*req),
    ensures
        answers(*policy, *req, resolved, expiry@, resp),
{
    let token_given = !req.session_token.as_str().is_empty();
    match resolved {
        Ok(id) if token_given => {
            let (allow, inject, reason) = policy.decide(
                req.protocol.as_str(),
                req.resource.as_str(),
                id.groups.as_slice(),
            );
            let inject = match inject {
                Some(m) if allow => m,
                _ => HashMap::new(),
            };
            DecisionResponse { allow, expiry, claims: id.claims, inject, reason }
        },
        _ => DecisionResponse {
            allow: false,
            expiry,
            claims: HashMap::new(),
            inject: HashMap::new(),
            reason: String::from_str("unauthenticated"),
        },
    }
}

/// The RFC 3339 text of the UTC instant `secs` seconds after the Unix epoch.
pub uninterp spec fn rfc3339_of(secs: int) -> Seq<char>;

/// The last second of the year 9999, in seconds since the Unix epoch: the
/// latest instant whose RFC 3339 text has a four-digit year.
pub const LAST_SECOND_OF_9999: i64 = 253_402_300_799;

/// Relies on chrono's `DateTime::<Utc>::from_timestamp`, which gives `None`
/// only for an instant out of its range (the range holds every instant from
/// the epoch to the end of the year 9999), and `DateTime::to_rfc3339`, whose
/// text depends on the instant alone.
#[verifier::external_body]
fn rfc3339_utc(secs: i64) -> (r: Option<String>)
    ensures
        0 <= secs <= LAST_SECOND_OF_9999 ==> r is Some,
        r is Some ==> r->Some_0@ == rfc3339_of(secs as int),
{
    match chrono::DateTime::<chrono::Utc>::from_timestamp(secs, 0) {
        Some(t) => Some(t.to_rfc3339()),
        None => None,
    }
}

#[verifier::external_type_specification]
#[verifier::external_body]
pub struct ExSystemTime(std::time::SystemTime);

/// Relies on std's `SystemTime::now`: a reading of the system clock. Nothing
/// is promised of it.
#[verifier::external_body]
fn clock_now() -> (r: std::time::SystemTime) {
    std::time::SystemTime::now()
}

/// Relies on std's `SystemTime::duration_since(UNIX_EPOCH)`: an error when
/// `t` lies before the epoch, otherwise the time elapsed since it, of which
/// the whole seconds are kept.
#[verifier::external_body]
fn seconds_since_epoch(t: &std::time::SystemTime) -> (r: Option<u64>) {
    match t.duration_since(std::time::UNIX_EPOCH) {
        Ok(d) => Some(d.as_secs()),
        Err(_) => None,
    }
}

/// The expiry of a decision given at `now`: the RFC 3339 text of
/// `now + DECISION_TTL_SECONDS`. It is given for every `now` from the epoch
/// on whose expiry falls before the end of the year 9999, and is `None`
/// when that instant cannot be written down.
pub fn expiry_after(now: i64) -> (r: Option<String>)
    ensures
        now + DECISION_TTL_SECONDS > i64::MAX ==> r is None,
        0 <= now && now + DECISION_TTL_SECONDS <= LAST_SECOND_OF_9999 ==> r is Some,
        r is Some ==> r->Some_0@ == rfc3339_of(now + DECISION_TTL_SECONDS),
{
    match now.checked_add(DECISION_TTL_SECONDS) {
        Some(t) => rfc3339_utc(t),
        None => None,
    }
}

/// The expiry of a decision given at a clock reading of `secs` seconds after
/// the epoch, or `None` when the clock read before the epoch (`secs` is
/// `None`) or the expiry cannot be written down.
pub fn expiry_at_reading(secs: Option<u64>) -> (r: Option<String>)
    ensures
        secs is None ==> r is None,
        secs is Some && secs->Some_0 + DECISION_TTL_SECONDS <= LAST_SECOND_OF_9999 ==> r is Some,
        r is Some ==> secs is Some && secs->Some_0 + DECISION_TTL_SECONDS <= i64::MAX
            && r->Some_0@ == rfc3339_of(
            secs->Some_0 + DECISION_TTL_SECONDS,
        ),
{
    match secs {
        Some(s) if s <= i64::MAX as u64 => expiry_after(s as i64),
        _ => None,
    }
}

/// Decides a request at the current time. A request with an empty protocol
/// or resource is refused before evaluation. Otherwise the answer is the
/// one `respond` gives, with an expiry `DECISION_TTL_SECONDS` after the
/// present instant.
pub fn decide_now(
    policy: &Policy,
    req: &DecisionRequest,
    resolved: Result<Identity, AuthError>,
) -> (r: Result<DecisionResponse, DecisionError>)
    ensures
        !well_formed(*req) <==> r matches Err(DecisionError::MalformedRequest),
        r is Ok ==> answers(*policy, *req, resolved, r->Ok_0.expiry@, r->Ok_0),
        r is Ok ==> exists|t: int|
            DECISION_TTL_SECONDS <= t <= i64::MAX && #[trigger] rfc3339_of(t)
                == r->Ok_0.expiry@,
{
    if req.protocol.as_str().is_empty() || req.resource.as_str().is_empty() {
        return Err(DecisionError::MalformedRequest);
    }
    let now = clock_now();
    let secs = seconds_since_epoch(&now);
    match expiry_at_reading(secs) {
        Some(expiry) => {
            assert(rfc3339_of(secs->Some_0 + DECISION_TTL_SECONDS) == expiry@);
            Ok(respond(policy, req, resolved, expiry))
        },
        None => Err(DecisionError::ClockOutOfRange),
    }
}

} // verus!
