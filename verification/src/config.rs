//! Process configuration, as an explicit value.
//!
//! The configuration is read from the environment once at startup, outside
//! this crate, and passed to whatever needs it — there is no global mutable
//! state.  Here live the configuration's shape and the pure parsing
//! decisions behind it.

use vstd::prelude::*;
use crate::text::str_eq;

verus! {

/// Which build of the service is running.
#[derive(Clone, Copy, PartialEq, Eq, Structural, Debug)]
pub enum Env {
    DEV,
    RELEASE,
}

/// The environment a profile string denotes; anything unrecognized runs as
/// development.
pub open spec fn spec_env_of(s: Seq<char>) -> Env {
    if s == "release"@ {
        Env::RELEASE
    } else {
        Env::DEV
    }
}

impl Env {
    /// Parses a profile string; unknown spellings fall back to
    /// development, never to an error.
    pub fn from_str(s: &str) -> (r: Result<Env, String>)
        ensures
            r matches Ok(e) && e == spec_env_of(s@),
    {
        if str_eq(s, "release") {
            Ok(Env::RELEASE)
        } else {
            Ok(Env::DEV)
        }
    }
}

/// Outbound mail transport settings.
pub struct MailConfig {
    pub from: String,
    pub host: String,
    pub username: String,
    pub password: String,
}

/// The service's configuration, constructed once at startup.
pub struct Config {
    pub env: Env,
    pub db_url: String,
    pub mail_config: MailConfig,
    pub jwt_secret: String,
    pub jwt_expiration_secs: u64,
    pub request_body_limit: usize,
    pub port: u16,
}

} // verus!
