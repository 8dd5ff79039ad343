pub mod access;
pub mod barcode_parser;
pub mod config;
pub mod database_config;
pub mod datetime;
pub mod errors;
pub mod fixed_layout;
pub mod models;
pub mod numbers;
pub mod rate_limit;
pub mod session;
pub mod text;
pub mod validation;
