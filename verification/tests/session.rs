use linear_core::auth::session::AuthSession;
use linear_core::time::{Duration, Timestamp};

#[test]
fn bearer_expiry_detection() {
    let session = AuthSession::new_access_token(
        "token".into(),
        Some("refresh".into()),
        Timestamp::now().plus(Duration::minutes(1)),
        vec![],
    );
    assert!(!session.is_expired());
    assert!(session.will_expire_within(Duration::minutes(2)));
}

#[test]
fn api_key_never_expires() {
    let session = AuthSession::new_api_key("key".into());
    assert!(!session.is_expired());
    assert!(!session.will_expire_within(Duration::hours(1)));
}

#[test]
fn bearer_window_bounds() {
    let now = Timestamp::from_millis(1_700_000_000_000);
    let session = AuthSession::new_access_token(
        "token".into(),
        None,
        now.plus(Duration::seconds(60)),
        vec![],
    );
    assert!(session.will_expire_within_at(Duration::seconds(120), now));
    assert!(!session.will_expire_within_at(Duration::seconds(30), now));
    assert!(!session.is_expired_at(now));
    assert!(session.is_expired_at(now.plus(Duration::seconds(60))));
}
