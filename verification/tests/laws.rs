//! Concrete checks of the library's general guarantees: PKCE shape, API-key
//! expiry, bearer expiry windows, persistence round trips, idempotent delete,
//! and the refresh-token carry-forward.

use linear_core::auth::credential_store::{CredentialStore, MemoryCredentialStore};
use linear_core::auth::oauth::{carry_refresh_token, handle_token_response};
use linear_core::auth::pkce::PkcePair;
use linear_core::auth::session::AuthSession;
use linear_core::time::{Duration, Timestamp};

#[test]
fn generated_pairs_always_meet_the_rfc_shape() {
    for _ in 0..32 {
        let pair = PkcePair::generate();
        assert!(43 <= pair.code_verifier().len() && pair.code_verifier().len() <= 128);
        assert_eq!(pair.challenge().len(), 43);
    }
}

#[test]
fn api_key_sessions_never_report_expiry_for_any_window() {
    let session = AuthSession::new_api_key("key".into());
    let now = Timestamp::now();
    for minutes in [0i64, 1, 60, 600_000] {
        assert!(!session.will_expire_within_at(Duration::minutes(minutes), now));
    }
    assert!(!session.is_expired_at(now));
}

#[test]
fn bearer_sixty_second_expiry_window() {
    let now = Timestamp::from_millis(1_700_000_000_000);
    let session =
        AuthSession::new_access_token("t".into(), None, now.plus(Duration::seconds(60)), vec![]);
    assert!(session.will_expire_within_at(Duration::seconds(120), now));
    assert!(!session.will_expire_within_at(Duration::seconds(30), now));
}

#[test]
fn save_then_load_returns_the_same_tokens() {
    let mut store = MemoryCredentialStore::new();
    let session = AuthSession::new_access_token(
        "access".into(),
        Some("refresh".into()),
        Timestamp::now().plus(Duration::minutes(5)),
        vec!["read".into()],
    );
    store.save("p", &session).unwrap();
    store.save("p", &session).unwrap();
    let loaded = store.load("p").unwrap().unwrap();
    assert_eq!(loaded.access_token, session.access_token);
    assert_eq!(loaded.refresh_token, session.refresh_token);
}

#[test]
fn delete_is_idempotent() {
    let mut store = MemoryCredentialStore::new();
    store.delete("p").unwrap();
    store.save("p", &AuthSession::new_api_key("k".into())).unwrap();
    store.delete("p").unwrap();
    store.delete("p").unwrap();
    assert!(store.load("p").unwrap().is_none());
}

#[test]
fn refresh_without_rotation_keeps_the_old_refresh_token() {
    let old = AuthSession::new_access_token(
        "old".into(),
        Some("old-refresh".into()),
        Timestamp::now(),
        vec![],
    );
    let body = "{\"access_token\":\"new\",\"token_type\":\"bearer\"}";
    let fresh = handle_token_response(200, body, Timestamp::now()).unwrap().session;
    let merged = carry_refresh_token(&old, fresh);
    assert_eq!(merged.refresh_token.as_deref(), Some("old-refresh"));

    let rotated_body =
        "{\"access_token\":\"new\",\"refresh_token\":\"rotated\",\"token_type\":\"bearer\"}";
    let fresh = handle_token_response(200, rotated_body, Timestamp::now()).unwrap().session;
    let merged = carry_refresh_token(&old, fresh);
    assert_eq!(merged.refresh_token.as_deref(), Some("rotated"));
}
