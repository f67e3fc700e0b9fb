//! The identity bootstrap: the login flow's decisions, and user
//! provisioning on first login.
//!
//! The OAuth provider, the token exchange and the profile fetch are
//! outside collaborators reached over the network; the embedding
//! program performs each [`LoginAction`] and reports what happened as
//! the next [`LoginEvent`]. This module holds only the decisions: which
//! action follows which event in which state. A failure at any step
//! leaves the caller anonymous and sends the client home with an error.

use vstd::prelude::*;

use crate::models::{AppUser, AppUserView, NewAppUser};
use crate::store::{find_user_by_email, Store, StoreError, StoreView};

verus! {

/// The profile document the provider's userinfo endpoint returns.
pub struct GoogleProfile {
    pub id: Option<String>,
    pub email: Option<String>,
    pub verified_email: Option<bool>,
    pub name: Option<String>,
    pub given_name: Option<String>,
    pub family_name: Option<String>,
    pub link: Option<String>,
    pub picture: Option<String>,
    pub gender: Option<String>,
    pub locale: Option<String>,
}

/// Where one login attempt stands.
pub enum LoginFlowState {
    /// No attempt in progress; the caller has no identity.
    Anonymous,
    /// The redirect to the provider was issued; the anti-forgery state
    /// is held for the callback.
    PendingAuthorization { csrf_state: String },
    /// The provider called back with an authorization code; the token
    /// exchange and profile fetch are outstanding.
    PendingTokenExchange { code: String },
    /// The profile arrived with an email; the session carries it.
    Authenticated { email: String },
}

/// What the outside world reports to the flow.
pub enum LoginEvent {
    /// The client asked to log in; the embedding program has built the
    /// provider's authorization URL and fresh anti-forgery state.
    LoginRequested { authorize_url: String, csrf_state: String },
    /// The provider redirected back with an authorization code.
    AuthorizationCodeReceived { code: String },
    /// The token exchange failed.
    TokenExchangeFailed,
    /// The token exchange produced an access token.
    TokenExchanged { access_token: String },
    /// The profile fetch failed.
    ProfileFetchFailed,
    /// The profile fetch produced a document.
    ProfileFetched { profile: GoogleProfile },
}

/// What the embedding program must do next.
pub enum LoginAction {
    /// Send the client to the provider's authorization page.
    RedirectToProvider { authorize_url: String },
    /// Exchange the authorization code for a token.
    ExchangeCode { code: String },
    /// Fetch the profile with the access token.
    FetchProfile { access_token: String },
    /// Store the email as the session identity and provision the user.
    EstablishSession { email: String },
    /// Send the client to the root page with this status.
    RedirectHome { status_code: u16 },
}

/// The flow's transition rule. A login request restarts the flow from
/// any state; every unexpected or failed step falls back to
/// `Anonymous` with a client-visible error redirect; only a profile
/// carrying an email authenticates.
pub open spec fn spec_login_flow_step(state: LoginFlowState, event: LoginEvent) -> (
    LoginFlowState,
    LoginAction,
) {
    match event {
        LoginEvent::LoginRequested { authorize_url, csrf_state } => (
            LoginFlowState::PendingAuthorization { csrf_state },
            LoginAction::RedirectToProvider { authorize_url },
        ),
        LoginEvent::AuthorizationCodeReceived { code } => match state {
            LoginFlowState::PendingAuthorization { .. } => (
                LoginFlowState::PendingTokenExchange { code },
                LoginAction::ExchangeCode { code },
            ),
            _ => (LoginFlowState::Anonymous, LoginAction::RedirectHome { status_code: 400 }),
        },
        LoginEvent::TokenExchanged { access_token } => match state {
            LoginFlowState::PendingTokenExchange { code } => (
                LoginFlowState::PendingTokenExchange { code },
                LoginAction::FetchProfile { access_token },
            ),
            _ => (LoginFlowState::Anonymous, LoginAction::RedirectHome { status_code: 400 }),
        },
        LoginEvent::TokenExchangeFailed => (
            LoginFlowState::Anonymous,
            LoginAction::RedirectHome { status_code: 400 },
        ),
        LoginEvent::ProfileFetchFailed => (
            LoginFlowState::Anonymous,
            LoginAction::RedirectHome { status_code: 400 },
        ),
        LoginEvent::ProfileFetched { profile } => match state {
            LoginFlowState::PendingTokenExchange { .. } => match profile.email {
                Some(email) => (
                    LoginFlowState::Authenticated { email },
                    LoginAction::EstablishSession { email },
                ),
                None => (
                    LoginFlowState::Anonymous,
                    LoginAction::RedirectHome { status_code: 400 },
                ),
            },
            _ => (LoginFlowState::Anonymous, LoginAction::RedirectHome { status_code: 400 }),
        },
    }
}

/// Advance the login flow by one reported event.
pub fn login_flow_step(state: LoginFlowState, event: LoginEvent) -> (r: (
    LoginFlowState,
    LoginAction,
))
    ensures
        r == spec_login_flow_step(state, event),
{
    match event {
        LoginEvent::LoginRequested { authorize_url, csrf_state } => (
            LoginFlowState::PendingAuthorization { csrf_state },
            LoginAction::RedirectToProvider { authorize_url },
        ),
        LoginEvent::AuthorizationCodeReceived { code } => match state {
            LoginFlowState::PendingAuthorization { csrf_state: _ } => {
                let held = code.clone();
                (
                    LoginFlowState::PendingTokenExchange { code: held },
                    LoginAction::ExchangeCode { code },
                )
            },
            _ => (LoginFlowState::Anonymous, LoginAction::RedirectHome { status_code: 400 }),
        },
        LoginEvent::TokenExchanged { access_token } => match state {
            LoginFlowState::PendingTokenExchange { code } => (
                LoginFlowState::PendingTokenExchange { code },
                LoginAction::FetchProfile { access_token },
            ),
            _ => (LoginFlowState::Anonymous, LoginAction::RedirectHome { status_code: 400 }),
        },
        LoginEvent::TokenExchangeFailed => (
            LoginFlowState::Anonymous,
            LoginAction::RedirectHome { status_code: 400 },
        ),
        LoginEvent::ProfileFetchFailed => (
            LoginFlowState::Anonymous,
            LoginAction::RedirectHome { status_code: 400 },
        ),
        LoginEvent::ProfileFetched { profile } => match state {
            LoginFlowState::PendingTokenExchange { code: _ } => match profile.email {
                Some(email) => {
                    let held = email.clone();
                    (
                        LoginFlowState::Authenticated { email: held },
                        LoginAction::EstablishSession { email },
                    )
                },
                None => (
                    LoginFlowState::Anonymous,
                    LoginAction::RedirectHome { status_code: 400 },
                ),
            },
            _ => (LoginFlowState::Anonymous, LoginAction::RedirectHome { status_code: 400 }),
        },
    }
}

/// Ensure the user row for a login email exists: a known email returns
/// its row and changes nothing, a first login inserts a fresh row.
/// Rejected only when no fresh id is left.
pub fn provision_user(store: &mut Store, email: &String) -> (r: Result<AppUser, StoreError>)
    requires
        old(store)@.wf(),
    ensures
        final(store)@.wf(),
        ({
            let s0 = old(store)@;
            match find_user_by_email(s0.users, email@) {
                Some(u) => r matches Ok(ru) && ru@ == u && final(store)@ == s0,
                None => {
                    if s0.next_user_id < i32::MAX {
                        r matches Ok(ru) && ru@ == (AppUserView {
                            id: s0.next_user_id,
                            email: email@,
                        }) && final(store)@ == (StoreView {
                            users: s0.users.push(ru@),
                            next_user_id: s0.next_user_id + 1,
                            ..s0
                        })
                    } else {
                        r is Err && final(store)@ == s0
                    }
                },
            }
        }),
{
    match AppUser::by_email(store, email) {
        Some(u) => Ok(u),
        None => store.insert_user(NewAppUser { email: email.clone() }),
    }
}

/// The provider's redirect URI under the deployment's public root URL.
pub fn oauth_redirect_url(domain_root_url: &str) -> (r: String)
    ensures
        r@ == domain_root_url@ + "google_oauth/"@,
{
    domain_root_url.to_owned().concat("google_oauth/")
}

/// Error reported when the outbound profile request cannot be sent.
#[derive(Debug, Default)]
pub struct WebClientError {}

impl WebClientError {
    /// The status the error response carries.
    pub fn status_code(&self) -> (r: u16)
        ensures
            r == 500,
    {
        500
    }

    /// The message the error displays.
    pub fn message(&self) -> (r: &'static str)
        ensures
            r@ == "Error sending request"@,
    {
        "Error sending request"
    }
}

} // verus!
