use appgate::policy::{Policy, PolicyLoadError, Rule};
use std::collections::HashMap;

fn rule(name: &str, protocol: &str, resource: &str, groups: &[&str]) -> Rule {
    Rule {
        name: name.to_string(),
        protocol: protocol.to_string(),
        resource: resource.to_string(),
        require_groups: groups.iter().map(|g| g.to_string()).collect(),
        inject: None,
    }
}

fn groups(names: &[&str]) -> Vec<String> {
    names.iter().map(|g| g.to_string()).collect()
}

fn players_policy() -> Policy {
    Policy { rules: vec![rule("players", "http", "/game", &["foundry-players"])] }
}

#[test]
fn players_with_group_are_allowed() {
    let p = players_policy();
    let (allow, inject, reason) =
        p.decide("http", "/game/start", &groups(&["foundry-players", "foundry-admin"]));
    assert!(allow);
    assert!(inject.is_none());
    assert_eq!(reason, "policy: players");
}

#[test]
fn guest_is_missing_group() {
    let p = players_policy();
    let (allow, _, reason) = p.decide("http", "/game/start", &groups(&["guest"]));
    assert!(!allow);
    assert_eq!(reason, "missing group");
}

#[test]
fn unmatched_resource_is_default_denied() {
    let p = players_policy();
    let (allow, inject, reason) =
        p.decide("http", "/other", &groups(&["foundry-players", "foundry-admin"]));
    assert!(!allow);
    assert!(inject.is_none());
    assert_eq!(reason, "default-deny");
}

#[test]
fn other_protocol_is_default_denied() {
    let p = players_policy();
    let (allow, _, reason) = p.decide("tcp", "/game/start", &groups(&["foundry-players"]));
    assert!(!allow);
    assert_eq!(reason, "default-deny");
}

#[test]
fn empty_policy_denies_everything() {
    let p = Policy { rules: vec![] };
    let (allow, _, reason) = p.decide("http", "/", &groups(&[]));
    assert!(!allow);
    assert_eq!(reason, "default-deny");
}

#[test]
fn first_matching_rule_wins_over_more_specific() {
    let p = Policy {
        rules: vec![rule("general", "http", "/a", &["g1"]), rule("specific", "http", "/a/b", &[])],
    };
    let (allow, _, reason) = p.decide("http", "/a/b/x", &groups(&[]));
    assert!(!allow);
    assert_eq!(reason, "missing group");
    let (allow, _, reason) = p.decide("http", "/a/b/x", &groups(&["g1"]));
    assert!(allow);
    assert_eq!(reason, "policy: general");
}

#[test]
fn later_rule_decides_when_earlier_does_not_match() {
    let p = Policy {
        rules: vec![rule("udp", "udp", "/a", &[]), rule("web", "http", "/a", &[])],
    };
    let (allow, _, reason) = p.decide("http", "/a/b", &groups(&[]));
    assert!(allow);
    assert_eq!(reason, "policy: web");
}

#[test]
fn all_required_groups_are_needed() {
    let p = Policy { rules: vec![rule("both", "http", "/", &["a", "b"])] };
    let (allow, _, reason) = p.decide("http", "/x", &groups(&["a"]));
    assert!(!allow);
    assert_eq!(reason, "missing group");
    let (allow, _, reason) = p.decide("http", "/x", &groups(&["b"]));
    assert!(!allow);
    assert_eq!(reason, "missing group");
    let (allow, _, reason) = p.decide("http", "/x", &groups(&["b", "c", "a"]));
    assert!(allow);
    assert_eq!(reason, "policy: both");
}

#[test]
fn prefix_match_is_not_a_glob() {
    let p = Policy { rules: vec![rule("star", "http", "/game*", &[])] };
    let (allow, _, reason) = p.decide("http", "/game/start", &groups(&[]));
    assert!(!allow);
    assert_eq!(reason, "default-deny");
    let (allow, _, _) = p.decide("http", "/game*/x", &groups(&[]));
    assert!(allow);
}

#[test]
fn matched_rule_hands_back_its_headers() {
    let mut inject = HashMap::new();
    inject.insert("X-User-Sub".to_string(), "demo".to_string());
    let mut r = rule("players", "http", "/game", &["foundry-players"]);
    r.inject = Some(inject.clone());
    let p = Policy { rules: vec![r] };
    let (allow, got, _) = p.decide("http", "/game", &groups(&["foundry-players"]));
    assert!(allow);
    assert_eq!(got, Some(inject));
}

#[test]
fn decide_is_deterministic() {
    let p = Policy {
        rules: vec![rule("a", "http", "/a", &["x"]), rule("b", "http", "/", &[])],
    };
    for res in ["/a/1", "/b", "/", "/a"] {
        for gs in [groups(&[]), groups(&["x"])] {
            assert_eq!(p.decide("http", res, &gs), p.decide("http", res, &gs));
        }
    }
}

#[test]
fn unique_names_make_a_policy() {
    let p = Policy::new(vec![rule("a", "http", "/a", &[]), rule("b", "http", "/b", &[])]);
    let p = p.ok().expect("unique names");
    assert_eq!(p.rules.len(), 2);
    assert_eq!(p.rules[0].name, "a");
    assert_eq!(p.rules[1].name, "b");
}

#[test]
fn duplicate_names_are_refused() {
    let r = Policy::new(vec![
        rule("a", "http", "/a", &[]),
        rule("b", "http", "/b", &[]),
        rule("a", "tcp", "/c", &[]),
    ]);
    match r {
        Err(e) => assert_eq!(e, PolicyLoadError::DuplicateName("a".to_string())),
        Ok(_) => panic!("duplicate names accepted"),
    }
}

#[test]
fn denial_hands_back_no_headers() {
    let mut inject = HashMap::new();
    inject.insert("X-User-Sub".to_string(), "demo".to_string());
    let mut r = rule("needs-a", "http", "/", &["a"]);
    r.inject = Some(inject);
    let p = Policy { rules: vec![r] };
    let (allow, got, reason) = p.decide("http", "/x", &groups(&[]));
    assert!(!allow);
    assert_eq!(got, None);
    assert_eq!(reason, "missing group");
}
