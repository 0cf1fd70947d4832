use appgate::policy::{Policy, Rule};
use appgate::service::{
    decide_now, expiry_after, expiry_at_reading, respond, AuthError, DecisionError, DecisionRequest, Identity,
};
use std::collections::HashMap;

fn policy() -> Policy {
    let mut inject = HashMap::new();
    inject.insert("X-User-Sub".to_string(), "demo".to_string());
    Policy {
        rules: vec![Rule {
            name: "players".to_string(),
            protocol: "http".to_string(),
            resource: "/game".to_string(),
            require_groups: vec!["foundry-players".to_string()],
            inject: Some(inject),
        }],
    }
}

fn request(token: &str, protocol: &str, resource: &str) -> DecisionRequest {
    DecisionRequest {
        session_token: token.to_string(),
        protocol: protocol.to_string(),
        resource: resource.to_string(),
        peer: "unknown".to_string(),
        attributes: HashMap::new(),
    }
}

fn identity(groups: &[&str]) -> Identity {
    let mut claims = HashMap::new();
    claims.insert("sub".to_string(), "demo-sub".to_string());
    Identity { groups: groups.iter().map(|g| g.to_string()).collect(), claims }
}

#[test]
fn known_member_is_allowed_with_headers_and_claims() {
    let resp = respond(
        &policy(),
        &request("tok", "http", "/game/start"),
        Ok(identity(&["foundry-players", "foundry-admin"])),
        "2030-01-01T00:00:00+00:00".to_string(),
    );
    assert!(resp.allow);
    assert_eq!(resp.reason, "policy: players");
    assert_eq!(resp.inject.get("X-User-Sub").map(|s| s.as_str()), Some("demo"));
    assert_eq!(resp.claims.get("sub").map(|s| s.as_str()), Some("demo-sub"));
    assert_eq!(resp.expiry, "2030-01-01T00:00:00+00:00");
}

#[test]
fn denial_carries_no_headers() {
    let resp = respond(
        &policy(),
        &request("tok", "http", "/game/start"),
        Ok(identity(&["guest"])),
        "e".to_string(),
    );
    assert!(!resp.allow);
    assert_eq!(resp.reason, "missing group");
    assert!(resp.inject.is_empty());
}

#[test]
fn empty_token_is_unauthenticated() {
    let resp = respond(
        &policy(),
        &request("", "http", "/game/start"),
        Ok(identity(&["foundry-players"])),
        "e".to_string(),
    );
    assert!(!resp.allow);
    assert_eq!(resp.reason, "unauthenticated");
    assert!(resp.claims.is_empty());
    assert!(resp.inject.is_empty());
}

#[test]
fn refused_credential_is_unauthenticated() {
    let resp = respond(
        &policy(),
        &request("tok", "http", "/game/start"),
        Err(AuthError::Rejected),
        "e".to_string(),
    );
    assert!(!resp.allow);
    assert_eq!(resp.reason, "unauthenticated");
}

#[test]
fn empty_protocol_or_resource_is_malformed() {
    let r = decide_now(&policy(), &request("tok", "", "/game"), Ok(identity(&[])));
    assert_eq!(r.err().map(|e| e), Some(DecisionError::MalformedRequest));
    let r = decide_now(&policy(), &request("tok", "http", ""), Ok(identity(&[])));
    assert_eq!(r.err().map(|e| e), Some(DecisionError::MalformedRequest));
}

#[test]
fn decision_now_carries_an_expiry() {
    let r = decide_now(
        &policy(),
        &request("tok", "http", "/game/start"),
        Ok(identity(&["foundry-players"])),
    );
    let resp = r.ok().expect("decision");
    assert!(resp.allow);
    assert_eq!(resp.reason, "policy: players");
    assert!(resp.expiry.ends_with("+00:00"));
    assert!(resp.expiry.len() >= 25);
}

#[test]
fn expiry_is_half_an_hour_later() {
    assert_eq!(expiry_after(0), Some("1970-01-01T00:30:00+00:00".to_string()));
    assert_eq!(expiry_after(1_700_000_000), Some("2023-11-14T22:43:20+00:00".to_string()));
}

#[test]
fn expiry_out_of_range_is_none() {
    assert_eq!(expiry_after(i64::MAX), None);
    assert_eq!(expiry_after(i64::MAX - 1800), None);
}

#[test]
fn expiry_follows_the_clock_reading() {
    assert_eq!(expiry_at_reading(None), None);
    assert_eq!(expiry_at_reading(Some(0)), Some("1970-01-01T00:30:00+00:00".to_string()));
    assert_eq!(expiry_at_reading(Some(u64::MAX)), None);
    assert_eq!(expiry_after(253_402_300_799 - 1800), Some("9999-12-31T23:59:59+00:00".to_string()));
}
