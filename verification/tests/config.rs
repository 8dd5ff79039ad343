use airtally_restapi::config::{AppConfig, ConfigError};

fn text(s: &str) -> Option<String> {
    Some(s.to_string())
}

#[test]
fn test_server_address() {
    let config = AppConfig {
        database_url: "postgres://test".to_string(),
        host: "127.0.0.1".to_string(),
        port: 8080,
        environment: "development".to_string(),
        log_level: "debug".to_string(),
        rate_limit_per_minute: 100,
        enable_swagger: true,
    };

    assert_eq!(config.server_address(), "127.0.0.1:8080");
}

#[test]
fn test_is_production() {
    let mut config = AppConfig {
        database_url: "postgres://test".to_string(),
        host: "0.0.0.0".to_string(),
        port: 3000,
        environment: "production".to_string(),
        log_level: "info".to_string(),
        rate_limit_per_minute: 100,
        enable_swagger: false,
    };

    assert!(config.is_production());
    assert!(!config.is_development());

    config.environment = "development".to_string();
    assert!(!config.is_production());
    assert!(config.is_development());
}

#[test]
fn server_address_writes_every_port() {
    let mut config = AppConfig::from_values(text("postgres://db"), text("::1"), None, None, None, None, None)
        .unwrap();
    for (port, expected) in [(0u16, "::1:0"), (7, "::1:7"), (10, "::1:10"), (65535, "::1:65535")] {
        config.port = port;
        assert_eq!(config.server_address(), expected);
    }
}

#[test]
fn environment_is_compared_exactly() {
    let config = AppConfig::from_values(text("x"), None, None, text("Production"), None, None, None).unwrap();
    assert!(!config.is_production());
    assert!(!config.is_development());
    let config = AppConfig::from_values(text("x"), None, None, text("staging"), None, None, None).unwrap();
    assert!(!config.is_production());
    assert!(!config.is_development());
}

#[test]
fn from_values_fills_in_the_defaults() {
    let config = AppConfig::from_values(text("postgres://db"), None, None, None, None, None, None).unwrap();
    assert_eq!(config.database_url, "postgres://db");
    assert_eq!(config.host, "0.0.0.0");
    assert_eq!(config.port, 3000);
    assert_eq!(config.environment, "development");
    assert_eq!(config.log_level, "debug");
    assert_eq!(config.rate_limit_per_minute, 100);
    assert!(config.enable_swagger);
}

#[test]
fn from_values_defaults_follow_the_environment() {
    let config =
        AppConfig::from_values(text("postgres://db"), None, None, text("production"), None, None, None).unwrap();
    assert_eq!(config.log_level, "info");
    assert!(!config.enable_swagger);
    let config =
        AppConfig::from_values(text("postgres://db"), None, None, text("staging"), None, None, None).unwrap();
    assert_eq!(config.log_level, "debug");
    assert!(config.enable_swagger);
}

#[test]
fn from_values_takes_what_is_given() {
    let config = AppConfig::from_values(
        text("postgres://db"),
        text("10.0.0.1"),
        text("+8081"),
        text("production"),
        text("warn"),
        text("18446744073709551615"),
        text("true"),
    )
    .unwrap();
    assert_eq!(config.host, "10.0.0.1");
    assert_eq!(config.port, 8081);
    assert_eq!(config.log_level, "warn");
    assert_eq!(config.rate_limit_per_minute, u64::MAX);
    assert!(config.enable_swagger);
}

#[test]
fn swagger_is_off_only_for_the_word_false() {
    for (value, expected) in [("false", false), ("true", true), ("no", true), ("FALSE", true), ("", true)] {
        let config =
            AppConfig::from_values(text("x"), None, None, None, None, None, text(value)).unwrap();
        assert_eq!(config.enable_swagger, expected, "{value:?}");
    }
}

#[test]
fn from_values_reports_each_error() {
    let missing = AppConfig::from_values(None, None, text("x"), None, None, text("y"), None);
    assert_eq!(missing.unwrap_err(), ConfigError::MissingDatabaseUrl);
    for port in ["", "http", "65536", "-1", " 80", "80 ", "+", "8 0"] {
        let bad = AppConfig::from_values(text("x"), None, text(port), None, None, text("y"), None);
        assert_eq!(bad.unwrap_err(), ConfigError::InvalidPort, "{port:?}");
    }
    for limit in ["", "many", "18446744073709551616", "-5", "1.5"] {
        let bad = AppConfig::from_values(text("x"), None, None, None, None, text(limit), None);
        assert_eq!(bad.unwrap_err(), ConfigError::InvalidRateLimit, "{limit:?}");
    }
}

#[test]
fn numbers_are_read_as_the_integer_types_read_them() {
    for port in ["0", "80", "+80", "00080", "65535", "65536", "", "+", "-0", "8a", "٣"] {
        let ours = AppConfig::from_values(text("x"), None, text(port), None, None, None, None)
            .ok()
            .map(|c| c.port);
        assert_eq!(ours, port.parse::<u16>().ok(), "{port:?}");
    }
}
