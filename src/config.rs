use vstd::prelude::*;
use vstd::utf8::encode_utf8;

verus! {

/// Why a configuration was refused.
#[derive(Debug, Clone, PartialEq, Eq)]
pub enum ConfigError {
    /// A required setting is empty.
    Missing(&'static str),
    /// A setting holds a value outside its allowed range.
    Invalid { key: &'static str, reason: String },
}

/// Global settings of the gateway.
#[derive(Debug, Clone)]
pub struct Global {
    pub run_dir: String,
    pub log_level: String,
}

/// Where trusted certificates are read from.
#[derive(Debug, Clone)]
pub struct Certs {
    pub trust_store: String,
}

/// Settings of the OpenID Connect login and its session cookie.
#[derive(Debug, Clone)]
pub struct Oidc {
    pub issuer: String,
    pub client_id: String,
    pub client_secret: String,
    pub redirect_uri: String,
    pub cookie_name: String,
    pub cookie_domain: String,
    pub session_ttl_seconds: u64,
}

/// The whole configuration of the control process.
#[derive(Debug, Clone)]
pub struct Config {
    pub global: Global,
    pub certs: Certs,
    pub auth_oidc: Oidc,
}

/// Shortest session lifetime accepted, in seconds.
pub const MIN_SESSION_TTL_SECONDS: u64 = 60;

/// Shortest cookie name accepted, in bytes.
pub const MIN_COOKIE_NAME_BYTES: usize = 5;

/// `e` reports that the setting `key` is missing.
pub open spec fn is_missing(e: ConfigError, key: Seq<char>) -> bool {
    match e {
        ConfigError::Missing(k) => k@ == key,
        _ => false,
    }
}

/// `e` reports that the setting `key` is invalid for `reason`.
pub open spec fn is_invalid(e: ConfigError, key: Seq<char>, reason: Seq<char>) -> bool {
    match e {
        ConfigError::Invalid { key: k, reason: why } => k@ == key && why@ == reason,
        _ => false,
    }
}

impl Config {
    /// The run directory is set.
    pub open spec fn has_run_dir(&self) -> bool {
        self.global.run_dir@.len() > 0
    }

    /// The trust store is set.
    pub open spec fn has_trust_store(&self) -> bool {
        self.certs.trust_store@.len() > 0
    }

    /// The session lifetime is long enough.
    pub open spec fn ttl_ok(&self) -> bool {
        self.auth_oidc.session_ttl_seconds >= MIN_SESSION_TTL_SECONDS
    }

    /// The cookie name is long enough, counted in UTF-8 bytes (as `str::len`
    /// reports the count).
    pub open spec fn cookie_name_ok(&self) -> bool {
        encode_utf8(self.auth_oidc.cookie_name@).len() as usize >= MIN_COOKIE_NAME_BYTES
    }

    /// Every check passes.
    pub open spec fn is_valid(&self) -> bool {
        self.has_run_dir() && self.has_trust_store() && self.ttl_ok() && self.cookie_name_ok()
    }

    /// Checks the settings in a fixed order and reports the first that fails.
    pub fn validate(&self) -> (r: Result<(), ConfigError>)
        ensures
            r is Ok <==> self.is_valid(),
            !self.has_run_dir() ==> r is Err && is_missing(r->Err_0, "global.run_dir"@),
            self.has_run_dir() && !self.has_trust_store() ==> r is Err && is_missing(
                r->Err_0,
                "certs.trust_store"@,
            ),
            self.has_run_dir() && self.has_trust_store() && !self.ttl_ok() ==> r is Err
                && is_invalid(r->Err_0, "auth.oidc.session_ttl_seconds"@, "must be >= 60"@),
            self.has_run_dir() && self.has_trust_store() && self.ttl_ok() && !self.cookie_name_ok()
                ==> r is Err && is_invalid(r->Err_0, "auth.oidc.cookie_name"@, "too short"@),
    {
        if self.global.run_dir.as_str().is_empty() {
            return Err(ConfigError::Missing("global.run_dir"));
        }
        if self.certs.trust_store.as_str().is_empty() {
            return Err(ConfigError::Missing("certs.trust_store"));
        }
        if self.auth_oidc.session_ttl_seconds < MIN_SESSION_TTL_SECONDS {
            return Err(
                ConfigError::Invalid {
                    key: "auth.oidc.session_ttl_seconds",
                    reason: String::from_str("must be >= 60"),
                },
            );
        }
        if self.auth_oidc.cookie_name.as_str().len() < MIN_COOKIE_NAME_BYTES {
            return Err(
                ConfigError::Invalid {
                    key: "auth.oidc.cookie_name",
                    reason: String::from_str("too short"),
                },
            );
        }
        Ok(())
    }
}

} // verus!
