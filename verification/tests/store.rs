use linear_core::auth::credential_store::{
    CredentialStore, FileCredentialStore, MemoryCredentialStore,
};
use linear_core::auth::session::AuthSession;
use linear_core::config::ConfigLocator;
use linear_core::time::{Duration, Timestamp};

fn sample_session() -> AuthSession {
    AuthSession::new_access_token(
        "token".into(),
        Some("refresh".into()),
        Timestamp::now().plus(Duration::minutes(5)),
        vec!["read".into()],
    )
}

#[test]
fn round_trip_persistence() {
    let mut store = MemoryCredentialStore::new();
    let session = sample_session();
    store.save("default", &session).unwrap();
    let loaded = store.load("default").unwrap().unwrap();
    assert_eq!(loaded.access_token, session.access_token);
    assert_eq!(loaded.refresh_token, session.refresh_token);
}

#[test]
fn delete_missing_is_ok() {
    let mut store = MemoryCredentialStore::new();
    store.delete("missing").unwrap();
}

#[test]
fn delete_removes_saved_session() {
    let mut store = MemoryCredentialStore::new();
    store.save("default", &sample_session()).unwrap();
    store.delete("default").unwrap();
    assert!(store.load("default").unwrap().is_none());
}

#[test]
fn save_replaces_previous_session() {
    let mut store = MemoryCredentialStore::new();
    store.save("default", &sample_session()).unwrap();
    let other = AuthSession::new_api_key("key2".into());
    store.save("default", &other).unwrap();
    let loaded = store.load("default").unwrap().unwrap();
    assert_eq!(loaded.access_token, "key2");
}

#[test]
fn profiles_are_independent() {
    let mut store = MemoryCredentialStore::new();
    store.save("work", &sample_session()).unwrap();
    assert!(store.load("home").unwrap().is_none());
    store.save("home", &AuthSession::new_api_key("hk".into())).unwrap();
    store.delete("work").unwrap();
    assert!(store.load("work").unwrap().is_none());
    assert_eq!(store.load("home").unwrap().unwrap().access_token, "hk");
}

#[test]
fn file_payload_round_trip() {
    let fs_store =
        FileCredentialStore::new(ConfigLocator::from_root_for_tests("/tmp/linear-test".into()));
    let session = sample_session();
    let payload = fs_store.save_payload("default", &session);
    let envelope = fs_store.parse_payload(&payload, Timestamp::now()).unwrap();
    assert_eq!(envelope.version, 1);
    assert_eq!(envelope.profile, "default");
    assert_eq!(envelope.session.access_token, session.access_token);
    assert_eq!(envelope.session.refresh_token, session.refresh_token);
    assert_eq!(envelope.session.scope, session.scope);
    assert_eq!(envelope.session.expires_at, session.expires_at);
    assert_eq!(envelope.session.created_at, session.created_at);
}

#[test]
fn file_store_paths_live_under_the_root() {
    let fs_store =
        FileCredentialStore::new(ConfigLocator::from_root_for_tests("/tmp/linear-test".into()));
    assert_eq!(
        fs_store.credentials_path("work"),
        "/tmp/linear-test/credentials-work.json"
    );
}
