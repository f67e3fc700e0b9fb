//! Startup settings and the rule by which a request's caller is resolved.

use vstd::prelude::*;

verus! {

/// OAuth client settings and the public root URL, read once at startup.
/// The embedding program fills the fields from its environment; absent
/// values leave the login flow unusable but the API reachable.
pub struct Config {
    pub google_client_id: Option<String>,
    pub google_client_secret: Option<String>,
    pub domain_root_url: Option<String>,
}

impl Config {
    /// The configuration with nothing set.
    pub fn read() -> (r: Config)
        ensures
            r.google_client_id is None,
            r.google_client_secret is None,
            r.domain_root_url is None,
    {
        Config { google_client_id: None, google_client_secret: None, domain_root_url: None }
    }
}

/// How a caller identity is resolved. `Sessions` is the production rule:
/// the session's email must name a stored user, and resolution fails
/// closed otherwise. `FixedUser` bypasses authentication and resolves
/// every request to one fixed user id; it exists for test setups only
/// and must be chosen explicitly, never silently.
#[derive(Clone, Copy, Debug, PartialEq, Eq, Structural)]
pub enum AuthMode {
    Sessions,
    FixedUser { user_id: i32 },
}

} // verus!
