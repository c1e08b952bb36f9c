use linear_core::auth::credential_store::MemoryCredentialStore;
use linear_core::auth::oauth::{handle_token_response, OAuthClient, OAuthConfig, OAuthEndpoints};
use linear_core::auth::orchestrator::{AuthManager, FreshPlan};
use linear_core::auth::session::{AuthSession, TokenType};
use linear_core::time::{Duration, Timestamp};

fn oauth_client() -> OAuthClient {
    let config = OAuthConfig::new("client".into(), "http://localhost/callback".into());
    let endpoints = OAuthEndpoints {
        authorization_url: "http://localhost/auth".into(),
        token_url: "http://localhost/token".into(),
    };
    OAuthClient::with_endpoints(config, endpoints)
}

#[test]
fn load_and_refresh_session() {
    let store = MemoryCredentialStore::new();
    let mut manager = AuthManager::new(store, oauth_client(), "default".into())
        .with_refresh_window(Duration::minutes(10));
    let session = AuthSession::new_access_token(
        "old".into(),
        Some("refresh".into()),
        Timestamp::now().plus(Duration::seconds(30)),
        vec!["read".into()],
    );
    manager.persist(&session).unwrap();

    let previous = match manager.ensure_fresh_plan(Timestamp::now()).unwrap() {
        FreshPlan::NeedsRefresh(s) => s,
        other => panic!("expected a refresh, got {:?}", plan_name(&other)),
    };
    let form = manager.oauth().refresh_form(&previous).unwrap();
    assert_eq!(form[1], ("refresh_token".to_string(), "refresh".to_string()));

    let body = "{\"access_token\":\"new\",\"refresh_token\":\"refresh\",\"token_type\":\"bearer\",\"expires_in\":7200}";
    let exchanged = handle_token_response(200, body, Timestamp::now()).unwrap();
    let refreshed = manager.absorb_refresh(&previous, exchanged.session).unwrap();
    assert_eq!(refreshed.access_token, "new");
    let stored = manager.current_session().unwrap().unwrap();
    assert_eq!(stored.access_token, "new");
}

fn plan_name(plan: &FreshPlan) -> &'static str {
    match plan {
        FreshPlan::NotLoggedIn => "not logged in",
        FreshPlan::Fresh(_) => "fresh",
        FreshPlan::NeedsRefresh(_) => "needs refresh",
    }
}

#[test]
fn logout_removes_session() {
    let store = MemoryCredentialStore::new();
    let mut manager = AuthManager::new(store, oauth_client(), "default".into());
    manager.authenticate_api_key("key".into()).unwrap();
    manager.logout().unwrap();
    assert!(matches!(
        manager.ensure_fresh_plan(Timestamp::now()).unwrap(),
        FreshPlan::NotLoggedIn
    ));
}

#[test]
fn refresh_keeps_previous_refresh_token_when_omitted() {
    let store = MemoryCredentialStore::new();
    let mut manager = AuthManager::new(store, oauth_client(), "default".into());
    let previous = AuthSession::new_access_token(
        "old".into(),
        Some("keep-me".into()),
        Timestamp::now(),
        vec![],
    );
    manager.persist(&previous).unwrap();

    let body = "{\"access_token\":\"new\",\"token_type\":\"bearer\",\"expires_in\":7200}";
    let exchanged = handle_token_response(200, body, Timestamp::now()).unwrap();
    let refreshed = manager.absorb_refresh(&previous, exchanged.session).unwrap();
    assert_eq!(refreshed.refresh_token.as_deref(), Some("keep-me"));
    let stored = manager.current_session().unwrap().unwrap();
    assert_eq!(stored.refresh_token.as_deref(), Some("keep-me"));
}

#[test]
fn api_key_sessions_are_returned_unchanged() {
    let store = MemoryCredentialStore::new();
    let mut manager = AuthManager::new(store, oauth_client(), "default".into());
    let returned = manager.authenticate_api_key("key".into()).unwrap();
    assert_eq!(returned.token_type, TokenType::ApiKey);
    match manager.ensure_fresh_plan(Timestamp::now()).unwrap() {
        FreshPlan::Fresh(s) => assert_eq!(s.access_token, "key"),
        other => panic!("expected the stored key, got {:?}", plan_name(&other)),
    }
}

#[test]
fn bearer_not_near_expiry_is_fresh() {
    let store = MemoryCredentialStore::new();
    let mut manager = AuthManager::new(store, oauth_client(), "default".into());
    let session = AuthSession::new_access_token(
        "long-lived".into(),
        Some("r".into()),
        Timestamp::now().plus(Duration::hours(10)),
        vec![],
    );
    manager.persist(&session).unwrap();
    match manager.ensure_fresh_plan(Timestamp::now()).unwrap() {
        FreshPlan::Fresh(s) => assert_eq!(s.access_token, "long-lived"),
        other => panic!("expected fresh, got {:?}", plan_name(&other)),
    }
}
