use linear_core::auth::manual::{check_state_matches, parse_manual_input};
use linear_core::auth::oauth::handle_token_response;
use linear_core::auth::AuthError;
use linear_core::time::Timestamp;

#[test]
fn parse_input_handles_raw_code() {
    let output = parse_manual_input("code123").unwrap();
    assert_eq!(output.code, "code123");
    assert!(output.state.is_none());
}

#[test]
fn parse_input_handles_url() {
    let response = parse_manual_input("https://example.com/callback?code=abc&state=xyz").unwrap();
    assert_eq!(response.code, "abc");
    assert_eq!(response.state.as_deref(), Some("xyz"));
}

#[test]
fn parse_input_access_denied() {
    let err = parse_manual_input("https://example.com/callback?error=access_denied").unwrap_err();
    assert!(matches!(err, AuthError::AccessDenied(_)));
}

#[test]
fn manual_flow_with_full_redirect() {
    let state = "state-for-this-attempt";
    let input = format!("https://example.com/callback?code=manual-code&state={state}");
    let response = parse_manual_input(&input).expect("manual flow succeeded");
    check_state_matches(&response, state).expect("state matches");
    assert_eq!(response.code, "manual-code");

    let body = "{\"access_token\":\"abc\",\"refresh_token\":\"ref\",\"token_type\":\"bearer\",\"expires_in\":3600}";
    let session = handle_token_response(200, body, Timestamp::now()).unwrap().session;
    assert_eq!(session.access_token, "abc");
    assert_eq!(session.refresh_token.as_deref(), Some("ref"));
}

#[test]
fn manual_flow_with_code_only() {
    let response = parse_manual_input("raw-code").expect("manual flow succeeded");
    check_state_matches(&response, "whatever-was-generated").expect("no state to validate");
    assert_eq!(response.code, "raw-code");

    let body = "{\"access_token\":\"xyz\",\"token_type\":\"bearer\",\"expires_in\":3600}";
    let session = handle_token_response(200, body, Timestamp::now()).unwrap().session;
    assert_eq!(session.access_token, "xyz");
}

#[test]
fn manual_flow_state_mismatch() {
    let response = parse_manual_input("https://example.com/callback?code=manual&state=bad").unwrap();
    let err = check_state_matches(&response, "expected-state").unwrap_err();
    assert!(matches!(err, AuthError::StateMismatch));
}

#[test]
fn empty_input_is_invalid() {
    let err = parse_manual_input("   \t  ").unwrap_err();
    assert!(matches!(err, AuthError::InvalidAuthorizationResponse(_)));
}

#[test]
fn input_is_trimmed_before_parsing() {
    let response = parse_manual_input("  raw-code \n").unwrap();
    assert_eq!(response.code, "raw-code");
}

#[test]
fn url_without_code_is_missing_code() {
    let err = parse_manual_input("https://example.com/callback?state=xyz").unwrap_err();
    assert!(matches!(err, AuthError::MissingAuthorizationCode));
}

#[test]
fn query_values_are_percent_decoded() {
    let response = parse_manual_input("https://example.com/callback?code=a%2Bb&state=x%20y").unwrap();
    assert_eq!(response.code, "a+b");
    assert_eq!(response.state.as_deref(), Some("x y"));
}
