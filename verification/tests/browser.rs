use linear_core::auth::browser::{
    callback_code_from_request, http_response, parse_request_path, ERROR_HTML, SUCCESS_HTML,
};
use linear_core::auth::oauth::handle_token_response;
use linear_core::auth::utils::random_state;
use linear_core::auth::AuthError;
use linear_core::time::Timestamp;

#[test]
fn loopback_flow_success() {
    let state = random_state(32);
    let request = format!(
        "GET /callback?code=test-code&state={state} HTTP/1.1\r\nHost: 127.0.0.1\r\nConnection: close\r\n\r\n"
    );
    let code = callback_code_from_request(&request, &state).expect("loopback flow succeeded");
    assert_eq!(code, "test-code");

    let body = "{\"access_token\":\"abc\",\"refresh_token\":\"ref\",\"token_type\":\"bearer\",\"expires_in\":3600,\"scope\":\"read\"}";
    let session = handle_token_response(200, body, Timestamp::now()).unwrap().session;
    assert_eq!(session.access_token, "abc");
    assert_eq!(session.refresh_token.as_deref(), Some("ref"));
}

#[test]
fn loopback_flow_state_mismatch() {
    let state = random_state(32);
    let request = format!(
        "GET /callback?code=test-code&state=wrong HTTP/1.1\r\nHost: 127.0.0.1\r\nConnection: close\r\n\r\n"
    );
    let err = callback_code_from_request(&request, &state).unwrap_err();
    assert!(matches!(err, AuthError::StateMismatch));
}

#[test]
fn callback_without_state_is_a_mismatch() {
    let request = "GET /callback?code=test-code HTTP/1.1\r\n\r\n";
    let err = callback_code_from_request(request, "expected").unwrap_err();
    assert!(matches!(err, AuthError::StateMismatch));
}

#[test]
fn callback_error_parameter_denies() {
    let request = "GET /callback?error=access_denied&state=s HTTP/1.1\r\n\r\n";
    match callback_code_from_request(request, "s").unwrap_err() {
        AuthError::AccessDenied(v) => assert_eq!(v, "access_denied"),
        other => panic!("unexpected error: {other:?}"),
    }
}

#[test]
fn callback_without_code_is_missing_code() {
    let request = "GET /callback?state=s HTTP/1.1\r\n\r\n";
    let err = callback_code_from_request(request, "s").unwrap_err();
    assert!(matches!(err, AuthError::MissingAuthorizationCode));
}

#[test]
fn repeated_parameters_take_the_last_value() {
    let request = "GET /callback?code=first&code=second&state=s HTTP/1.1\r\n\r\n";
    let code = callback_code_from_request(request, "s").unwrap();
    assert_eq!(code, "second");
}

#[test]
fn request_path_is_second_word() {
    assert_eq!(
        parse_request_path("GET /callback?x=1 HTTP/1.1\r\nHost: h\r\n\r\n").unwrap(),
        "/callback?x=1"
    );
    let err = parse_request_path("").unwrap_err();
    assert!(matches!(err, AuthError::InvalidAuthorizationResponse(_)));
    let err = parse_request_path("GET\r\n").unwrap_err();
    assert!(matches!(err, AuthError::InvalidAuthorizationResponse(_)));
    let err = parse_request_path("   \r\nbody").unwrap_err();
    assert!(matches!(err, AuthError::InvalidAuthorizationResponse(_)));
}

#[test]
fn http_response_has_exact_headers_and_length() {
    let r = http_response(200, "hi");
    assert_eq!(
        r,
        "HTTP/1.1 200 OK\r\nContent-Type: text/html; charset=utf-8\r\nContent-Length: 2\r\nConnection: close\r\n\r\nhi"
    );
    let r = http_response(400, ERROR_HTML);
    assert!(r.starts_with("HTTP/1.1 400 Bad Request\r\n"));
    assert!(r.contains(&format!("Content-Length: {}", ERROR_HTML.len())));
    assert!(r.ends_with(ERROR_HTML));
    let r = http_response(503, SUCCESS_HTML);
    assert!(r.starts_with("HTTP/1.1 500 Internal Server Error\r\n"));
}
