//! Application settings and the rules by which they are filled in from
//! optional text values.

use vstd::prelude::*;
use crate::numbers::{decimal, parse_unsigned, parsed_unsigned, push_decimal};
use crate::text::{chars_of, str_eq, string_of};

verus! {

/// The settings of the application.
#[derive(Debug, Clone)]
pub struct AppConfig {
    /// Database connection URL.
    pub database_url: String,
    /// Server host address.
    pub host: String,
    /// Server port.
    pub port: u16,
    /// Environment: "development", "staging" or "production".
    pub environment: String,
    /// Logging level.
    pub log_level: String,
    /// Requests per minute allowed to one address.
    pub rate_limit_per_minute: u64,
    /// Whether the API documentation is served.
    pub enable_swagger: bool,
}

/// Why a set of values gives no configuration.
#[derive(Debug, Clone, Copy, PartialEq, Eq, Structural)]
pub enum ConfigError {
    /// No database URL was given.
    MissingDatabaseUrl,
    /// The port is not a number from 0 to 65535.
    InvalidPort,
    /// The rate limit is not a number that fits 64 bits.
    InvalidRateLimit,
}

/// The text of an optional value, or `default` where there is none.
pub open spec fn text_or(value: Option<String>, default: Seq<char>) -> Seq<char> {
    match value {
        Some(v) => v@,
        None => default,
    }
}

/// The log level used where none is given: "info" in production, "debug"
/// elsewhere.
pub open spec fn default_log_level(environment: Seq<char>) -> Seq<char> {
    if environment == "production"@ {
        "info"@
    } else {
        "debug"@
    }
}

/// Whether the documentation is served: a given value switches it off only
/// when it reads "false"; without a value it is off in production alone.
pub open spec fn swagger_enabled(value: Option<String>, environment: Seq<char>) -> bool {
    match value {
        Some(v) => v@ != "false"@,
        None => environment != "production"@,
    }
}

/// The outcome of filling in a configuration from optional values.
pub open spec fn resolution_error(
    database_url: Option<String>,
    port: Option<String>,
    rate_limit_per_minute: Option<String>,
) -> Option<ConfigError> {
    if database_url is None {
        Some(ConfigError::MissingDatabaseUrl)
    } else if parsed_unsigned(text_or(port, "3000"@), 0xffff) is None {
        Some(ConfigError::InvalidPort)
    } else if parsed_unsigned(text_or(rate_limit_per_minute, "100"@), 0xffff_ffff_ffff_ffff)
        is None {
        Some(ConfigError::InvalidRateLimit)
    } else {
        None
    }
}

/// The text of an optional value, or a copy of `default`.
fn value_or(value: Option<String>, default: &str) -> (r: String)
    ensures
        r@ == text_or(value, default@),
{
    match value {
        Some(v) => v,
        None => default.to_owned(),
    }
}

impl AppConfig {
    /// The address that the server listens on, as text.
    pub open spec fn address(&self) -> Seq<char> {
        self.host@ + seq![':'] + decimal(self.port as nat)
    }

    /// Fills in a configuration from optional text values, with the
    /// defaults host "0.0.0.0", port 3000, environment "development" and
    /// 100 requests per minute.
    pub fn from_values(
        database_url: Option<String>,
        host: Option<String>,
        port: Option<String>,
        environment: Option<String>,
        log_level: Option<String>,
        rate_limit_per_minute: Option<String>,
        enable_swagger: Option<String>,
    ) -> (r: Result<AppConfig, ConfigError>)
        ensures
            match resolution_error(database_url, port, rate_limit_per_minute) {
                Some(e) => r == Err::<AppConfig, ConfigError>(e),
                None => r matches Ok(c) && {
                    &&& c.database_url@ == database_url->0@
                    &&& c.host@ == text_or(host, "0.0.0.0"@)
                    &&& Some(c.port as nat) == parsed_unsigned(text_or(port, "3000"@), 0xffff)
                    &&& c.environment@ == text_or(environment, "development"@)
                    &&& c.log_level@ == text_or(log_level, default_log_level(c.environment@))
                    &&& Some(c.rate_limit_per_minute as nat) == parsed_unsigned(
                        text_or(rate_limit_per_minute, "100"@),
                        0xffff_ffff_ffff_ffff,
                    )
                    &&& c.enable_swagger == swagger_enabled(enable_swagger, c.environment@)
                },
            },
    {
        let database_url = match database_url {
            Some(url) => url,
            None => { return Err(ConfigError::MissingDatabaseUrl); },
        };
        let host = value_or(host, "0.0.0.0");
        let port_text = value_or(port, "3000");
        let port_chars = chars_of(port_text.as_str());
        let port: u16 = match parse_unsigned(port_chars.as_slice(), 0xffff) {
            Some(p) => p as u16,
            None => { return Err(ConfigError::InvalidPort); },
        };
        let environment = value_or(environment, "development");
        let production = str_eq(environment.as_str(), "production");
        let log_level = value_or(log_level, if production { "info" } else { "debug" });
        let limit_text = value_or(rate_limit_per_minute, "100");
        let limit_chars = chars_of(limit_text.as_str());
        let rate_limit_per_minute: u64 = match parse_unsigned(
            limit_chars.as_slice(),
            0xffff_ffff_ffff_ffff,
        ) {
            Some(n) => n,
            None => { return Err(ConfigError::InvalidRateLimit); },
        };
        let enable_swagger = match enable_swagger {
            Some(v) => !str_eq(v.as_str(), "false"),
            None => !production,
        };
        Ok(
            AppConfig {
                database_url,
                host,
                port,
                environment,
                log_level,
                rate_limit_per_minute,
                enable_swagger,
            },
        )
    }

    /// The full server address: host, a colon, the port in decimal.
    pub fn server_address(&self) -> (r: String)
        ensures
            r@ == self.address(),
    {
        let mut out = chars_of(self.host.as_str());
        out.push(':');
        push_decimal(&mut out, self.port as u64);
        string_of(out.as_slice())
    }

    /// True when the environment is "production".
    pub fn is_production(&self) -> (r: bool)
        ensures
            r == (self.environment@ == "production"@),
    {
        str_eq(self.environment.as_str(), "production")
    }

    /// True when the environment is "development".
    pub fn is_development(&self) -> (r: bool)
        ensures
            r == (self.environment@ == "development"@),
    {
        str_eq(self.environment.as_str(), "development")
    }
}

} // verus!
