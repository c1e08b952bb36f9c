use linear_core::auth::oauth::{
    default_redirect_uri, handle_token_response, OAuthClient, OAuthConfig, OAuthEndpoints,
};
use linear_core::auth::pkce::PkcePair;
use linear_core::auth::session::TokenType;
use linear_core::auth::AuthError;
use linear_core::time::Timestamp;

fn test_client() -> OAuthClient {
    let config = OAuthConfig::new("client-id".into(), "http://localhost/callback".into());
    let endpoints = OAuthEndpoints {
        authorization_url: "http://localhost/authorize".into(),
        token_url: "http://localhost/oauth/token".into(),
    };
    OAuthClient::with_endpoints(config, endpoints)
}

#[test]
fn exchange_code_success() {
    let client = test_client();
    let pkce = PkcePair::generate();
    let form = client.exchange_code_form("code123", &pkce);
    assert_eq!(form[0], ("grant_type".to_string(), "authorization_code".to_string()));
    assert_eq!(form[1], ("code".to_string(), "code123".to_string()));
    assert_eq!(form[2], ("redirect_uri".to_string(), "http://localhost/callback".to_string()));
    assert_eq!(form[3], ("code_verifier".to_string(), pkce.code_verifier().to_string()));
    assert_eq!(form[4], ("client_id".to_string(), "client-id".to_string()));
    assert_eq!(form.len(), 5);

    let received_at = Timestamp::from_millis(1_700_000_000_000);
    let body = "{\"access_token\":\"abc123\",\"refresh_token\":\"refresh456\",\"token_type\":\"bearer\",\"expires_in\":3600,\"scope\":\"read write\"}";
    let result = handle_token_response(200, body, received_at).unwrap();
    assert_eq!(result.session.access_token, "abc123");
    assert_eq!(result.session.refresh_token.as_deref(), Some("refresh456"));
    assert_eq!(result.session.scope, vec!["read", "write"]);
    assert_eq!(result.session.token_type, TokenType::Bearer);
    let expires = result.session.expires_at.expect("expiry present");
    assert_eq!(expires.millis(), received_at.millis() + 3_600_000);
    assert_eq!(result.session.created_at, received_at);
}

#[test]
fn refresh_token_missing() {
    let session = linear_core::auth::session::AuthSession::new_api_key("key".into());
    let client = test_client();
    let result = client.refresh_form(&session);
    assert!(matches!(result.unwrap_err(), AuthError::RefreshUnavailable));
}

#[test]
fn refresh_uses_existing_refresh_token_when_not_returned() {
    let client = test_client();
    let old = linear_core::auth::session::AuthSession::new_access_token(
        "old-access".into(),
        Some("refresh456".into()),
        Timestamp::now(),
        vec![],
    );
    let form = client.refresh_form(&old).unwrap();
    assert_eq!(form[0], ("grant_type".to_string(), "refresh_token".to_string()));
    assert_eq!(form[1], ("refresh_token".to_string(), "refresh456".to_string()));
    assert_eq!(form[2], ("client_id".to_string(), "client-id".to_string()));

    let body = "{\"access_token\":\"new-access\",\"token_type\":\"bearer\",\"expires_in\":7200,\"scope\":\"read\"}";
    let result = handle_token_response(200, body, Timestamp::now()).unwrap();
    assert!(result.session.refresh_token.is_none());
    let merged = linear_core::auth::oauth::carry_refresh_token(&old, result.session);
    assert_eq!(merged.access_token, "new-access");
    assert_eq!(merged.refresh_token.as_deref(), Some("refresh456"));
}

#[test]
fn token_endpoint_failure() {
    let err = handle_token_response(400, "invalid_grant", Timestamp::now()).unwrap_err();
    match err {
        AuthError::TokenEndpoint { status, body } => {
            assert_eq!(status, 400);
            assert_eq!(body, "invalid_grant");
        }
        other => panic!("unexpected error: {other:?}"),
    }
}

#[test]
fn client_credentials_success() {
    let config = OAuthConfig::new("client-id".into(), "http://localhost/callback".into())
        .with_secret("client-secret".into());
    let endpoints = OAuthEndpoints {
        authorization_url: "http://localhost/authorize".into(),
        token_url: "http://localhost/oauth/token".into(),
    };
    let client = OAuthClient::with_endpoints(config, endpoints);
    let scopes = vec!["read".to_string(), "write".to_string()];
    let form = client.client_credentials_form(&scopes);
    assert_eq!(form[0], ("grant_type".to_string(), "client_credentials".to_string()));
    assert_eq!(form[1], ("client_id".to_string(), "client-id".to_string()));
    assert_eq!(form[2], ("client_secret".to_string(), "client-secret".to_string()));
    assert_eq!(form[3], ("scope".to_string(), "read write".to_string()));

    let body = "{\"access_token\":\"machine-token\",\"token_type\":\"bearer\",\"expires_in\":3600,\"scope\":\"read write\"}";
    let result = handle_token_response(200, body, Timestamp::now()).unwrap();
    assert_eq!(result.session.access_token, "machine-token");
    assert_eq!(result.session.scope, vec!["read", "write"]);
}

#[test]
fn invalid_token_type_is_rejected_case_insensitively() {
    let ok = "{\"access_token\":\"a\",\"token_type\":\"Bearer\"}";
    assert!(handle_token_response(200, ok, Timestamp::now()).is_ok());
    let bad = "{\"access_token\":\"a\",\"token_type\":\"MAC\"}";
    match handle_token_response(200, bad, Timestamp::now()).unwrap_err() {
        AuthError::InvalidTokenType(t) => assert_eq!(t, "mac"),
        other => panic!("unexpected error: {other:?}"),
    }
}

#[test]
fn malformed_body_is_deserialize_error() {
    let err = handle_token_response(200, "not json", Timestamp::now()).unwrap_err();
    assert!(matches!(err, AuthError::Deserialize(_)));
    let err = handle_token_response(200, "{\"token_type\":\"bearer\"}", Timestamp::now())
        .unwrap_err();
    assert!(matches!(err, AuthError::Deserialize(_)));
}

#[test]
fn authorization_url_carries_all_parameters() {
    let config = OAuthConfig::new("client id".into(), "http://localhost/callback".into())
        .with_scopes(vec!["read".to_string(), "write".to_string()]);
    let endpoints = OAuthEndpoints {
        authorization_url: "http://localhost/authorize".into(),
        token_url: "http://localhost/token".into(),
    };
    let client = OAuthClient::with_endpoints(config, endpoints);
    let pkce = PkcePair::generate();
    let url = client.authorization_url(&pkce, "state123");
    let expected = format!(
        "http://localhost/authorize?response_type=code&client_id=client+id&redirect_uri=http%3A%2F%2Flocalhost%2Fcallback&scope=read+write&code_challenge={}&code_challenge_method=S256&state=state123",
        pkce.challenge()
    );
    assert_eq!(url, expected);
}

#[test]
fn authorization_url_omits_empty_scope() {
    let client = test_client();
    let pkce = PkcePair::generate();
    let url = client.authorization_url(&pkce, "s");
    assert!(!url.contains("scope="));
    assert!(url.contains("?response_type=code"));
}

#[test]
fn redirect_uri_formats_port() {
    assert_eq!(default_redirect_uri(9000), "http://127.0.0.1:9000/callback");
    assert_eq!(default_redirect_uri(65535), "http://127.0.0.1:65535/callback");
}

#[test]
fn clone_with_redirect_changes_only_the_redirect() {
    let client = test_client();
    let moved = client.clone_with_redirect("http://127.0.0.1:9123/callback".into());
    assert_eq!(moved.config().redirect_uri, "http://127.0.0.1:9123/callback");
    assert_eq!(moved.config().client_id, "client-id");
    assert_eq!(moved.endpoints().token_url, client.endpoints().token_url);
}
