//! The gatekeeping middleware: which requests pass through to the
//! wrapped service, and which get the login page instead.
//!
//! A request passes when its path belongs to the login machinery or the
//! static assets, or when the caller already has a session identity;
//! everything else is answered with the login page.

use vstd::prelude::*;

verus! {

/// Middleware factory: wraps the next service in the chain.
pub struct Auth;

/// The wrapped service together with the gatekeeping decision.
pub struct AuthMiddleware<S> {
    pub service: S,
}

impl Auth {
    /// Wrap a service.
    pub fn new_transform<S>(&self, service: S) -> (r: AuthMiddleware<S>)
        ensures
            r.service == service,
    {
        AuthMiddleware { service }
    }
}

/// Whether a request may pass without the login page: the site
/// verification path, the OAuth callback, the static assets and the
/// login page itself are always open; everything else needs an
/// identity.
pub open spec fn spec_route_allowed(path: Seq<char>, has_identity: bool) -> bool {
    ||| "/google6e03bff5229f1e21"@.is_prefix_of(path)
    ||| "/google_oauth"@.is_prefix_of(path)
    ||| "/assets"@.is_prefix_of(path)
    ||| path == "/login"@
    ||| has_identity
}

/// What the middleware does with a request.
#[derive(Clone, Copy, Debug, PartialEq, Eq, Structural)]
pub enum RouteDecision {
    /// Hand the request to the wrapped service.
    Forward,
    /// Answer with the login page instead.
    RenderLogin,
}

/// Whether `prefix` starts `s`.
fn str_starts_with(s: &str, prefix: &str) -> (r: bool)
    ensures
        r == prefix@.is_prefix_of(s@),
{
    let n = prefix.unicode_len();
    if s.unicode_len() < n {
        return false;
    }
    let mut i: usize = 0;
    while i < n
        invariant
            0 <= i <= n,
            n == prefix@.len(),
            s@.len() >= n,
            forall|j: int| 0 <= j < i ==> s@[j] == prefix@[j],
        decreases n - i,
    {
        if s.get_char(i) != prefix.get_char(i) {
            proof {
                assert(s@.subrange(0, n as int)[i as int] == s@[i as int]);
            }
            return false;
        }
        i += 1;
    }
    proof {
        assert(prefix@ =~= s@.subrange(0, n as int));
    }
    true
}

/// Whether two path strings are the same.
fn str_equal(a: &str, b: &str) -> (r: bool)
    ensures
        r == (a@ == b@),
{
    let n = a.unicode_len();
    if b.unicode_len() != n {
        return false;
    }
    let mut i: usize = 0;
    while i < n
        invariant
            0 <= i <= n,
            n == a@.len(),
            b@.len() == n,
            forall|j: int| 0 <= j < i ==> a@[j] == b@[j],
        decreases n - i,
    {
        if a.get_char(i) != b.get_char(i) {
            return false;
        }
        i += 1;
    }
    proof {
        assert(a@ =~= b@);
    }
    true
}

impl<S> AuthMiddleware<S> {
    /// Decide a request from its path and whether a session identity is
    /// present.
    pub fn call(&self, path: &str, has_identity: bool) -> (r: RouteDecision)
        ensures
            r == (if spec_route_allowed(path@, has_identity) {
                RouteDecision::Forward
            } else {
                RouteDecision::RenderLogin
            }),
    {
        if str_starts_with(path, "/google6e03bff5229f1e21") || str_starts_with(
            path,
            "/google_oauth",
        ) || str_starts_with(path, "/assets") || str_equal(path, "/login") || has_identity {
            RouteDecision::Forward
        } else {
            RouteDecision::RenderLogin
        }
    }
}

} // verus!
