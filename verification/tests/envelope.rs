use linear_core::auth::envelope::{encode_envelope, parse_envelope};
use linear_core::auth::session::{AuthSession, TokenType};
use linear_core::time::{Duration, Timestamp};

#[test]
fn envelope_round_trip_bearer() {
    let session = AuthSession::new_access_token(
        "tok-123".into(),
        Some("ref-456".into()),
        Timestamp::from_millis(1_700_000_123_456),
        vec!["read".into(), "write".into()],
    );
    let text = encode_envelope("default", &session);
    let env = parse_envelope(&text, Timestamp::now()).expect("round trip parses");
    assert_eq!(env.version, 1);
    assert_eq!(env.profile, "default");
    assert_eq!(env.session.access_token, "tok-123");
    assert_eq!(env.session.refresh_token.as_deref(), Some("ref-456"));
    assert_eq!(env.session.token_type, TokenType::Bearer);
    assert_eq!(env.session.expires_at, session.expires_at);
    assert_eq!(env.session.scope, vec!["read", "write"]);
    assert_eq!(env.session.created_at, session.created_at);
}

#[test]
fn envelope_round_trip_api_key() {
    let session = AuthSession::new_api_key("key".into());
    let text = encode_envelope("work", &session);
    let env = parse_envelope(&text, Timestamp::now()).expect("round trip parses");
    assert_eq!(env.profile, "work");
    assert_eq!(env.session.access_token, "key");
    assert!(env.session.refresh_token.is_none());
    assert_eq!(env.session.token_type, TokenType::ApiKey);
    assert!(env.session.expires_at.is_none());
    assert!(env.session.scope.is_empty());
}

#[test]
fn envelope_round_trip_escapes_special_characters() {
    let session = AuthSession::new_access_token(
        "quo\"te\\slash\u{1}control".into(),
        None,
        Timestamp::from_millis(0),
        vec!["a b".into()],
    );
    let text = encode_envelope("pro\"file", &session);
    let env = parse_envelope(&text, Timestamp::now()).expect("round trip parses");
    assert_eq!(env.profile, "pro\"file");
    assert_eq!(env.session.access_token, "quo\"te\\slash\u{1}control");
    assert_eq!(env.session.scope, vec!["a b"]);
}

#[test]
fn envelope_text_is_the_documented_json() {
    let session = AuthSession::new_api_key("k".into());
    let text = encode_envelope("p", &session);
    assert!(text.starts_with(
        "{\"version\":1,\"profile\":\"p\",\"session\":{\"access_token\":\"k\",\"refresh_token\":null,\"token_type\":\"api_key\",\"expires_at\":null,\"scope\":[],\"created_at\":\""
    ));
    assert!(text.ends_with("\"}}"));
}

#[test]
fn missing_created_at_defaults_to_now() {
    let payload = "{\"version\":1,\"profile\":\"p\",\"session\":{\"access_token\":\"a\",\"refresh_token\":null,\"token_type\":\"api_key\",\"expires_at\":null,\"scope\":[]}}";
    let now = Timestamp::from_millis(1_700_000_000_000);
    let env = parse_envelope(payload, now).expect("older file parses");
    assert_eq!(env.session.created_at, now);
}

#[test]
fn other_versions_are_read_back() {
    let payload = "{\"version\":12,\"profile\":\"p\",\"session\":{\"access_token\":\"a\",\"refresh_token\":null,\"token_type\":\"bearer\",\"expires_at\":null,\"scope\":[\"read\"]}}";
    let env = parse_envelope(payload, Timestamp::now()).expect("parses");
    assert_eq!(env.version, 12);
    assert_eq!(env.session.scope, vec!["read"]);
}

#[test]
fn malformed_payloads_are_rejected() {
    let now = Timestamp::now();
    assert!(parse_envelope("", now).is_none());
    assert!(parse_envelope("{}", now).is_none());
    assert!(parse_envelope("{\"version\":1,\"profile\":\"p\"}", now).is_none());
    let bad_type = "{\"version\":1,\"profile\":\"p\",\"session\":{\"access_token\":\"a\",\"refresh_token\":null,\"token_type\":\"mac\",\"expires_at\":null,\"scope\":[]}}";
    assert!(parse_envelope(bad_type, now).is_none());
    let trailing = format!(
        "{} ",
        encode_envelope("p", &AuthSession::new_api_key("k".into()))
    );
    assert!(parse_envelope(&trailing, now).is_none());
}

#[test]
fn expiry_survives_the_file_format() {
    let expires = Timestamp::from_millis(1_800_000_000_000).plus(Duration::seconds(90));
    let session = AuthSession::new_access_token("t".into(), None, expires, vec![]);
    let text = encode_envelope("p", &session);
    let env = parse_envelope(&text, Timestamp::now()).unwrap();
    assert_eq!(env.session.expires_at.unwrap().millis(), expires.millis());
}
