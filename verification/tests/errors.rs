use linear_core::auth::AuthError;
use linear_core::config::ConfigError;

#[test]
fn every_error_kind_has_a_distinct_message() {
    let errors = vec![
        AuthError::Config(ConfigError::MissingProjectDirs),
        AuthError::Io("boom".into()),
        AuthError::Deserialize("boom".into()),
        AuthError::Http("boom".into()),
        AuthError::TokenEndpoint {
            status: 400,
            body: "boom".into(),
        },
        AuthError::InvalidTokenType("boom".into()),
        AuthError::RefreshUnavailable,
        AuthError::Url("boom".into()),
        AuthError::ListenerClosed,
        AuthError::Cancelled,
        AuthError::AccessDenied("boom".into()),
        AuthError::MissingAuthorizationCode,
        AuthError::StateMismatch,
        AuthError::BrowserLaunch("boom".into()),
        AuthError::InvalidAuthorizationResponse("boom".into()),
        AuthError::NoAvailablePort,
        AuthError::UnsupportedFlow("boom".into()),
    ];
    let messages: Vec<String> = errors.iter().map(|e| e.message()).collect();
    for (i, a) in messages.iter().enumerate() {
        assert!(!a.is_empty());
        for b in messages.iter().skip(i + 1) {
            assert_ne!(a, b);
        }
    }
}

#[test]
fn token_endpoint_message_carries_status_and_body() {
    let e = AuthError::TokenEndpoint {
        status: 503,
        body: "try later".into(),
    };
    assert_eq!(e.message(), "token endpoint error 503: try later");
}

#[test]
fn refresh_unavailable_message() {
    assert_eq!(
        AuthError::RefreshUnavailable.message(),
        "token refresh unavailable"
    );
}
