use appgate::config::{Certs, Config, ConfigError, Global, Oidc};

fn config(run_dir: &str, trust_store: &str, cookie_name: &str, ttl: u64) -> Config {
    Config {
        global: Global { run_dir: run_dir.to_string(), log_level: "info".to_string() },
        certs: Certs { trust_store: trust_store.to_string() },
        auth_oidc: Oidc {
            issuer: "https://kc/realms/main".to_string(),
            client_id: "x".to_string(),
            client_secret: "env:K".to_string(),
            redirect_uri: "https://app/oidc/callback".to_string(),
            cookie_name: cookie_name.to_string(),
            cookie_domain: "example.com".to_string(),
            session_ttl_seconds: ttl,
        },
    }
}

#[test]
fn config_ok() {
    let cfg = config("/run/appgate", "/etc/appgate/ca.pem", "appg_sess", 3600);
    assert!(cfg.validate().is_ok());
}

#[test]
fn config_too_short_cookie() {
    let cfg = config("/run/x", "/etc/ca.pem", "abc", 3600);
    assert!(cfg.validate().is_err());
    assert_eq!(
        cfg.validate(),
        Err(ConfigError::Invalid { key: "auth.oidc.cookie_name", reason: "too short".to_string() })
    );
}

#[test]
fn cookie_name_length_counts_bytes() {
    assert!(config("/run/x", "/etc/ca.pem", "abcde", 60).validate().is_ok());
    assert!(config("/run/x", "/etc/ca.pem", "abcd", 60).validate().is_err());
    // two characters, six bytes
    assert!(config("/run/x", "/etc/ca.pem", "\u{20ac}\u{20ac}", 60).validate().is_ok());
}

#[test]
fn empty_run_dir_is_missing() {
    let cfg = config("", "", "ab", 0);
    assert_eq!(cfg.validate(), Err(ConfigError::Missing("global.run_dir")));
}

#[test]
fn empty_trust_store_is_missing() {
    let cfg = config("/run/x", "", "ab", 0);
    assert_eq!(cfg.validate(), Err(ConfigError::Missing("certs.trust_store")));
}

#[test]
fn short_session_ttl_is_invalid() {
    let cfg = config("/run/x", "/etc/ca.pem", "ab", 59);
    assert_eq!(
        cfg.validate(),
        Err(ConfigError::Invalid {
            key: "auth.oidc.session_ttl_seconds",
            reason: "must be >= 60".to_string()
        })
    );
}
