//! Settings of the database connection pool and the report of its health.

use std::time::Duration;
use vstd::prelude::*;
use crate::config::AppConfig;
use crate::numbers::{parse_unsigned, parsed_unsigned};
use crate::text::{chars_of, str_eq};

verus! {

/// Limits and timeouts of the connection pool. Timeouts are in seconds.
#[derive(Debug, Clone, Copy, PartialEq, Eq, Structural)]
pub struct DatabaseConfig {
    /// Minimum number of connections in the pool.
    pub min_connections: u32,
    /// Maximum number of connections in the pool.
    pub max_connections: u32,
    /// Time allowed for opening a connection.
    pub connect_timeout_secs: u64,
    /// Time allowed for acquiring a connection from the pool.
    pub acquire_timeout_secs: u64,
    /// Time after which an idle connection is closed.
    pub idle_timeout_secs: u64,
    /// Longest life of a connection.
    pub max_lifetime_secs: Option<u64>,
    /// Whether connections are tested on checkout.
    pub test_on_check_out: bool,
}

/// The number that `value` reads as when it is an unsigned integer no
/// larger than `max`, else `default`; `default` too where there is no value.
pub open spec fn number_or(value: Option<String>, max: nat, default: nat) -> nat {
    match value {
        Some(v) => match parsed_unsigned(v@, max) {
            Some(n) => n,
            None => default,
        },
        None => default,
    }
}

/// The flag that `value` reads as: false for "false", true for anything
/// else and where there is no value.
pub open spec fn flag_or_true(value: Option<String>) -> bool {
    match value {
        Some(v) => v@ != "false"@,
        None => true,
    }
}

fn read_number_or(value: &Option<String>, max: u64, default: u64) -> (r: u64)
    requires
        default <= max,
    ensures
        r == number_or(*value, max as nat, default as nat),
        r <= max,
{
    match value {
        Some(v) => {
            let chars = chars_of(v.as_str());
            match parse_unsigned(chars.as_slice(), max) {
                Some(n) => n,
                None => default,
            }
        },
        None => default,
    }
}

impl DatabaseConfig {
    /// The lower limit never exceeds the upper one.
    pub open spec fn well_formed(self) -> bool {
        self.min_connections <= self.max_connections
    }

    /// The conservative settings used where nothing else is called for.
    pub open spec fn standard() -> DatabaseConfig {
        DatabaseConfig {
            min_connections: 5,
            max_connections: 20,
            connect_timeout_secs: 10,
            acquire_timeout_secs: 30,
            idle_timeout_secs: 600,
            max_lifetime_secs: Some(1800),
            test_on_check_out: true,
        }
    }

    /// The settings for development.
    pub open spec fn for_development() -> DatabaseConfig {
        DatabaseConfig {
            min_connections: 2,
            max_connections: 10,
            connect_timeout_secs: 5,
            acquire_timeout_secs: 10,
            idle_timeout_secs: 300,
            max_lifetime_secs: Some(900),
            test_on_check_out: true,
        }
    }

    /// The settings for production.
    pub open spec fn for_production() -> DatabaseConfig {
        DatabaseConfig {
            min_connections: 10,
            max_connections: 50,
            connect_timeout_secs: 5,
            acquire_timeout_secs: 10,
            idle_timeout_secs: 300,
            max_lifetime_secs: Some(600),
            test_on_check_out: true,
        }
    }

    /// Fills in the settings from optional text values. A value that is
    /// missing or does not read as a number gives the standard setting; the
    /// lower limit is capped at the upper one.
    pub fn from_values(
        min_connections: Option<String>,
        max_connections: Option<String>,
        connect_timeout: Option<String>,
        acquire_timeout: Option<String>,
        idle_timeout: Option<String>,
        max_lifetime: Option<String>,
        test_on_check_out: Option<String>,
    ) -> (r: DatabaseConfig)
        ensures
            r.well_formed(),
            r.max_connections == number_or(max_connections, 0xffff_ffff, 20),
            r.min_connections == if number_or(min_connections, 0xffff_ffff, 5)
                <= r.max_connections {
                number_or(min_connections, 0xffff_ffff, 5)
            } else {
                r.max_connections as nat
            },
            r.connect_timeout_secs == number_or(connect_timeout, 0xffff_ffff_ffff_ffff, 10),
            r.acquire_timeout_secs == number_or(acquire_timeout, 0xffff_ffff_ffff_ffff, 30),
            r.idle_timeout_secs == number_or(idle_timeout, 0xffff_ffff_ffff_ffff, 600),
            r.max_lifetime_secs == Some(
                number_or(max_lifetime, 0xffff_ffff_ffff_ffff, 1800) as u64,
            ),
            r.test_on_check_out == flag_or_true(test_on_check_out),
    {
        let wanted_min: u32 = read_number_or(&min_connections, 0xffff_ffff, 5) as u32;
        let max: u32 = read_number_or(&max_connections, 0xffff_ffff, 20) as u32;
        let min: u32 = if wanted_min <= max { wanted_min } else { max };
        let test = match &test_on_check_out {
            Some(v) => !str_eq(v.as_str(), "false"),
            None => true,
        };
        DatabaseConfig {
            min_connections: min,
            max_connections: max,
            connect_timeout_secs: read_number_or(&connect_timeout, 0xffff_ffff_ffff_ffff, 10),
            acquire_timeout_secs: read_number_or(&acquire_timeout, 0xffff_ffff_ffff_ffff, 30),
            idle_timeout_secs: read_number_or(&idle_timeout, 0xffff_ffff_ffff_ffff, 600),
            max_lifetime_secs: Some(read_number_or(&max_lifetime, 0xffff_ffff_ffff_ffff, 1800)),
            test_on_check_out: test,
        }
    }

    /// The settings for development: 2 to 10 connections.
    pub fn development() -> (r: DatabaseConfig)
        ensures
            r == DatabaseConfig::for_development(),
            r.well_formed(),
    {
        DatabaseConfig {
            min_connections: 2,
            max_connections: 10,
            connect_timeout_secs: 5,
            acquire_timeout_secs: 10,
            idle_timeout_secs: 300,
            max_lifetime_secs: Some(900),
            test_on_check_out: true,
        }
    }

    /// The settings for production: 10 to 50 connections.
    pub fn production() -> (r: DatabaseConfig)
        ensures
            r == DatabaseConfig::for_production(),
            r.well_formed(),
    {
        DatabaseConfig {
            min_connections: 10,
            max_connections: 50,
            connect_timeout_secs: 5,
            acquire_timeout_secs: 10,
            idle_timeout_secs: 300,
            max_lifetime_secs: Some(600),
            test_on_check_out: true,
        }
    }

    /// Minimum number of connections.
    pub fn min_connections(&self) -> (r: u32)
        ensures
            r == self.min_connections,
    {
        self.min_connections
    }

    /// Maximum number of connections.
    pub fn max_connections(&self) -> (r: u32)
        ensures
            r == self.max_connections,
    {
        self.max_connections
    }
}

impl Default for DatabaseConfig {
    /// The standard settings: 5 to 20 connections.
    fn default() -> (r: DatabaseConfig)
        ensures
            r == DatabaseConfig::standard(),
            r.well_formed(),
    {
        DatabaseConfig {
            min_connections: 5,
            max_connections: 20,
            connect_timeout_secs: 10,
            acquire_timeout_secs: 30,
            idle_timeout_secs: 600,
            max_lifetime_secs: Some(1800),
            test_on_check_out: true,
        }
    }
}

/// The pool settings that go with an application configuration.
pub open spec fn pool_settings_for(environment: Seq<char>) -> DatabaseConfig {
    if environment == "production"@ {
        DatabaseConfig::for_production()
    } else if environment == "development"@ {
        DatabaseConfig::for_development()
    } else {
        DatabaseConfig::standard()
    }
}

/// Picks the pool settings by environment: production, development, and
/// the standard settings for anything else.
pub fn get_database_config(app_config: &AppConfig) -> (r: DatabaseConfig)
    ensures
        r == pool_settings_for(app_config.environment@),
        r.well_formed(),
{
    if app_config.is_production() {
        DatabaseConfig::production()
    } else if app_config.is_development() {
        DatabaseConfig::development()
    } else {
        DatabaseConfig::default()
    }
}

/// What a health probe of the database found.
#[derive(Debug)]
pub struct DatabaseHealth {
    /// Whether the database answered correctly.
    pub is_healthy: bool,
    /// Time taken by the probe.
    pub response_time: Duration,
    /// Number of active connections.
    pub active_connections: u32,
    /// Number of idle connections.
    pub idle_connections: u32,
    /// Error message when unhealthy.
    pub error: Option<String>,
}

impl DatabaseHealth {
    /// The report for a probe: healthy without a message when the probe
    /// succeeded, unhealthy with the failure's message when it did not.
    pub fn from_probe(
        failure: Option<String>,
        response_time: Duration,
        active_connections: u32,
        idle_connections: u32,
    ) -> (r: DatabaseHealth)
        ensures
            r.is_healthy == (failure is None),
            r.error == failure,
            r.response_time == response_time,
            r.active_connections == active_connections,
            r.idle_connections == idle_connections,
    {
        DatabaseHealth {
            is_healthy: failure.is_none(),
            response_time,
            active_connections,
            idle_connections,
            error: failure,
        }
    }

    /// The HTTP status code for the report: 200 when healthy, 503 when not.
    pub fn status_code(&self) -> (r: u16)
        ensures
            r == if self.is_healthy { 200u16 } else { 503u16 },
    {
        if self.is_healthy {
            200
        } else {
            503
        }
    }
}

} // verus!
