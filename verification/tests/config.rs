use linear_core::config::{ConfigError, ConfigLocator};

#[test]
fn credentials_file_appends_profile() {
    let locator = ConfigLocator::from_root_for_tests("/tmp/linear-test".to_string());
    let path = locator.credentials_file("default");
    assert!(path.ends_with("credentials-default.json"));
}

#[test]
fn config_error_messages_are_distinct() {
    let a = ConfigError::MissingProjectDirs.message();
    let b = ConfigError::CreateDir("denied".into()).message();
    let c = ConfigError::Io("boom".into()).message();
    assert_ne!(a, b);
    assert_ne!(b, c);
    assert_ne!(a, c);
    assert_eq!(b, "failed to create configuration directory: denied");
}
