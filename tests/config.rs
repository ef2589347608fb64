use leaderboard_updater::config::{BackendConfig, ConfigError};

#[test]
fn missing_key_is_refused() {
    assert!(matches!(BackendConfig::from_key(None), Err(ConfigError::MissingKey)));
}

#[test]
fn empty_key_is_refused() {
    let r = BackendConfig::from_key(Some(String::new()));
    assert!(matches!(r, Err(ConfigError::MissingKey)));
}

#[test]
fn supplied_key_forms_the_configuration() {
    let c = BackendConfig::from_key(Some("k-123".to_string())).ok().unwrap();
    assert_eq!(c.api_key, "k-123");
    assert_eq!(c.endpoint, "https://cloud.appwrite.io/v1");
    assert_eq!(c.project_id, "674af771001c9bd25d19");
    assert_eq!(c.database_id, "674affe00035c269732a");
    assert_eq!(c.collection_id, "674affff003d3a0b1c72");
}
