use task_notes::auth::{
    login_flow_step, oauth_redirect_url, provision_user, GoogleProfile, LoginAction, LoginEvent,
    LoginFlowState, WebClientError,
};
use task_notes::auth_middleware::{Auth, AuthMiddleware, RouteDecision};
use task_notes::config::Config;
use task_notes::models::NewAppUser;
use task_notes::store::Store;

fn profile_with_email(email: Option<&str>) -> GoogleProfile {
    GoogleProfile {
        id: Some("g-1".to_owned()),
        email: email.map(|e| e.to_owned()),
        verified_email: Some(true),
        name: None,
        given_name: None,
        family_name: None,
        link: None,
        picture: None,
        gender: None,
        locale: None,
    }
}

#[test]
fn login_request_starts_the_flow_from_anywhere() {
    let (state, action) = login_flow_step(
        LoginFlowState::Anonymous,
        LoginEvent::LoginRequested {
            authorize_url: "https://provider/auth?x=1".to_owned(),
            csrf_state: "anti-forgery-token".to_owned(),
        },
    );
    assert!(matches!(state, LoginFlowState::PendingAuthorization { .. }));
    match action {
        LoginAction::RedirectToProvider { authorize_url } => {
            assert_eq!(authorize_url, "https://provider/auth?x=1".to_owned());
        }
        _ => panic!("expected the provider redirect"),
    }
}

#[test]
fn callback_code_is_exchanged_only_when_pending() {
    let pending = LoginFlowState::PendingAuthorization { csrf_state: "s".to_owned() };
    let (state, action) = login_flow_step(
        pending,
        LoginEvent::AuthorizationCodeReceived { code: "c0de".to_owned() },
    );
    match state {
        LoginFlowState::PendingTokenExchange { code } => assert_eq!(code, "c0de".to_owned()),
        _ => panic!("expected the exchange to be pending"),
    }
    assert!(matches!(action, LoginAction::ExchangeCode { .. }));

    let (state, action) = login_flow_step(
        LoginFlowState::Anonymous,
        LoginEvent::AuthorizationCodeReceived { code: "c0de".to_owned() },
    );
    assert!(matches!(state, LoginFlowState::Anonymous));
    match action {
        LoginAction::RedirectHome { status_code } => assert_eq!(status_code, 400),
        _ => panic!("expected the error redirect"),
    }
}

#[test]
fn token_exchange_outcomes() {
    let pending = LoginFlowState::PendingTokenExchange { code: "c0de".to_owned() };
    let (state, action) =
        login_flow_step(pending, LoginEvent::TokenExchanged { access_token: "tok".to_owned() });
    assert!(matches!(state, LoginFlowState::PendingTokenExchange { .. }));
    match action {
        LoginAction::FetchProfile { access_token } => assert_eq!(access_token, "tok".to_owned()),
        _ => panic!("expected the profile fetch"),
    }

    let pending = LoginFlowState::PendingTokenExchange { code: "c0de".to_owned() };
    let (state, action) = login_flow_step(pending, LoginEvent::TokenExchangeFailed);
    assert!(matches!(state, LoginFlowState::Anonymous));
    assert!(matches!(action, LoginAction::RedirectHome { status_code: 400 }));
}

#[test]
fn profile_with_email_authenticates() {
    let pending = LoginFlowState::PendingTokenExchange { code: "c0de".to_owned() };
    let (state, action) = login_flow_step(
        pending,
        LoginEvent::ProfileFetched { profile: profile_with_email(Some("alice@example.com")) },
    );
    match state {
        LoginFlowState::Authenticated { email } => {
            assert_eq!(email, "alice@example.com".to_owned())
        }
        _ => panic!("expected authentication"),
    }
    match action {
        LoginAction::EstablishSession { email } => {
            assert_eq!(email, "alice@example.com".to_owned())
        }
        _ => panic!("expected the session to be established"),
    }
}

#[test]
fn profile_without_email_fails_closed() {
    let pending = LoginFlowState::PendingTokenExchange { code: "c0de".to_owned() };
    let (state, action) =
        login_flow_step(pending, LoginEvent::ProfileFetched { profile: profile_with_email(None) });
    assert!(matches!(state, LoginFlowState::Anonymous));
    assert!(matches!(action, LoginAction::RedirectHome { status_code: 400 }));

    let pending = LoginFlowState::PendingTokenExchange { code: "c0de".to_owned() };
    let (state, _) = login_flow_step(pending, LoginEvent::ProfileFetchFailed);
    assert!(matches!(state, LoginFlowState::Anonymous));
}

#[test]
fn unexpected_events_leave_the_caller_anonymous() {
    let (state, action) = login_flow_step(
        LoginFlowState::Anonymous,
        LoginEvent::TokenExchanged { access_token: "tok".to_owned() },
    );
    assert!(matches!(state, LoginFlowState::Anonymous));
    assert!(matches!(action, LoginAction::RedirectHome { status_code: 400 }));

    let (state, _) = login_flow_step(
        LoginFlowState::Authenticated { email: "a@b".to_owned() },
        LoginEvent::ProfileFetched { profile: profile_with_email(Some("a@b")) },
    );
    assert!(matches!(state, LoginFlowState::Anonymous));
}

#[test]
fn provisioning_inserts_once_per_email() {
    let mut store = Store::new();
    store.insert_user(NewAppUser { email: "alice@example.com".to_owned() }).unwrap();
    let again = provision_user(&mut store, &"alice@example.com".to_owned()).unwrap();
    assert_eq!(again.id, 1);
    let fresh = provision_user(&mut store, &"bob@example.com".to_owned()).unwrap();
    assert_eq!(fresh.id, 2);
    assert_eq!(fresh.email, "bob@example.com".to_owned());
    let same = provision_user(&mut store, &"bob@example.com".to_owned()).unwrap();
    assert_eq!(same.id, 2);
}

#[test]
fn redirect_url_hangs_off_the_root() {
    assert_eq!(
        oauth_redirect_url("https://notes.example/"),
        "https://notes.example/google_oauth/".to_owned()
    );
}

#[test]
fn web_client_error_reports_itself() {
    let e = WebClientError::default();
    assert_eq!(e.status_code(), 500);
    assert_eq!(e.message(), "Error sending request");
}

#[test]
fn config_read_defaults_to_nothing() {
    let c = Config::read();
    assert!(c.google_client_id.is_none());
    assert!(c.google_client_secret.is_none());
    assert!(c.domain_root_url.is_none());
}

#[test]
fn middleware_forwards_open_paths_and_sessions() {
    let mw: AuthMiddleware<u8> = Auth.new_transform(7u8);
    assert_eq!(mw.service, 7u8);
    assert_eq!(mw.call("/login", false), RouteDecision::Forward);
    assert_eq!(mw.call("/assets/app.css", false), RouteDecision::Forward);
    assert_eq!(mw.call("/google_oauth/?code=1", false), RouteDecision::Forward);
    assert_eq!(mw.call("/google6e03bff5229f1e21.html", false), RouteDecision::Forward);
    assert_eq!(mw.call("/api/project", false), RouteDecision::RenderLogin);
    assert_eq!(mw.call("/api/project", true), RouteDecision::Forward);
    assert_eq!(mw.call("/logi", false), RouteDecision::RenderLogin);
}
