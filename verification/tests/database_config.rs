use airtally_restapi::config::AppConfig;
use airtally_restapi::database_config::{get_database_config, DatabaseConfig, DatabaseHealth};
use std::time::Duration;

fn text(s: &str) -> Option<String> {
    Some(s.to_string())
}

fn app_config(environment: &str) -> AppConfig {
    AppConfig::from_values(text("postgres://db"), None, None, text(environment), None, None, None).unwrap()
}

#[test]
fn test_database_config_default() {
    let config = DatabaseConfig::default();
    assert_eq!(config.min_connections, 5);
    assert_eq!(config.max_connections, 20);
    assert_eq!(Duration::from_secs(config.connect_timeout_secs), Duration::from_secs(10));
    assert_eq!(Duration::from_secs(config.acquire_timeout_secs), Duration::from_secs(30));
    assert!(config.test_on_check_out);
}

#[test]
fn test_database_config_development() {
    let config = DatabaseConfig::development();
    assert_eq!(config.min_connections, 2);
    assert_eq!(config.max_connections, 10);
    assert_eq!(Duration::from_secs(config.connect_timeout_secs), Duration::from_secs(5));
    assert!(config.test_on_check_out);
}

#[test]
fn test_database_config_production() {
    let config = DatabaseConfig::production();
    assert_eq!(config.min_connections, 10);
    assert_eq!(config.max_connections, 50);
    assert_eq!(Duration::from_secs(config.connect_timeout_secs), Duration::from_secs(5));
    assert!(config.test_on_check_out);
}

#[test]
fn presets_in_full() {
    let expected = DatabaseConfig {
        min_connections: 5,
        max_connections: 20,
        connect_timeout_secs: 10,
        acquire_timeout_secs: 30,
        idle_timeout_secs: 600,
        max_lifetime_secs: Some(1800),
        test_on_check_out: true,
    };
    assert_eq!(DatabaseConfig::default(), expected);
    let expected = DatabaseConfig {
        min_connections: 2,
        max_connections: 10,
        connect_timeout_secs: 5,
        acquire_timeout_secs: 10,
        idle_timeout_secs: 300,
        max_lifetime_secs: Some(900),
        test_on_check_out: true,
    };
    assert_eq!(DatabaseConfig::development(), expected);
    let expected = DatabaseConfig {
        min_connections: 10,
        max_connections: 50,
        connect_timeout_secs: 5,
        acquire_timeout_secs: 10,
        idle_timeout_secs: 300,
        max_lifetime_secs: Some(600),
        test_on_check_out: true,
    };
    assert_eq!(DatabaseConfig::production(), expected);
}

#[test]
fn getters_return_the_limits() {
    let config = DatabaseConfig::production();
    assert_eq!(config.min_connections(), 10);
    assert_eq!(config.max_connections(), 50);
}

#[test]
fn settings_follow_the_environment() {
    assert_eq!(get_database_config(&app_config("production")), DatabaseConfig::production());
    assert_eq!(get_database_config(&app_config("development")), DatabaseConfig::development());
    assert_eq!(get_database_config(&app_config("staging")), DatabaseConfig::default());
    assert_eq!(get_database_config(&app_config("")), DatabaseConfig::default());
}

#[test]
fn from_values_without_values_is_the_default() {
    let config = DatabaseConfig::from_values(None, None, None, None, None, None, None);
    assert_eq!(config, DatabaseConfig::default());
}

#[test]
fn from_values_reads_numbers_and_falls_back() {
    let config = DatabaseConfig::from_values(
        text("3"),
        text("40"),
        text("7"),
        text("x"),
        text("-1"),
        text("99"),
        text("false"),
    );
    assert_eq!(config.min_connections, 3);
    assert_eq!(config.max_connections, 40);
    assert_eq!(config.connect_timeout_secs, 7);
    assert_eq!(config.acquire_timeout_secs, 30);
    assert_eq!(config.idle_timeout_secs, 600);
    assert_eq!(config.max_lifetime_secs, Some(99));
    assert!(!config.test_on_check_out);
}

#[test]
fn from_values_caps_the_minimum_at_the_maximum() {
    let config = DatabaseConfig::from_values(text("25"), text("20"), None, None, None, None, None);
    assert_eq!(config.min_connections, 20);
    assert_eq!(config.max_connections, 20);
    let config = DatabaseConfig::from_values(None, text("2"), None, None, None, None, None);
    assert_eq!(config.min_connections, 2);
    assert_eq!(config.max_connections, 2);
    let config = DatabaseConfig::from_values(text("4294967296"), text("4294967295"), None, None, None, None, None);
    assert_eq!(config.min_connections, 5);
    assert_eq!(config.max_connections, u32::MAX);
}

#[test]
fn health_status_codes() {
    let healthy = DatabaseHealth::from_probe(None, Duration::from_millis(3), 4, 2);
    assert!(healthy.is_healthy);
    assert_eq!(healthy.error, None);
    assert_eq!(healthy.response_time, Duration::from_millis(3));
    assert_eq!(healthy.active_connections, 4);
    assert_eq!(healthy.idle_connections, 2);
    assert_eq!(healthy.status_code(), 200);

    let failed = DatabaseHealth::from_probe(
        Some("Database test failed: timeout".to_string()),
        Duration::from_secs(30),
        0,
        0,
    );
    assert!(!failed.is_healthy);
    assert_eq!(failed.error.as_deref(), Some("Database test failed: timeout"));
    assert_eq!(failed.status_code(), 503);
}
