[package]
name = "airtally_restapi"
version = "0.1.0"
edition = "2021"
publish = false

[dependencies]
axum = "*"
bcrypt = "*"
chrono = { version = "*", features = ["serde"] }
dotenvy = "*"
http-body-util = "*"
jsonwebtoken = "9"
regex = "*"
serde = { version = "*", features = ["derive"] }
serde_json = "*"
sha2 = "*"
sqlx = { version = "*", default-features = false, features = ["runtime-tokio", "postgres", "chrono", "derive", "migrate"] }
tokio = { version = "*", features = ["full"] }
tower-http = { version = "*", features = ["cors", "trace"] }
tracing = "*"
tracing-appender = "*"
tracing-subscriber = { version = "*", features = ["env-filter"] }
utoipa = { version = "*", features = ["axum_extras", "chrono"] }
utoipa-swagger-ui = { version = "*", features = ["axum", "vendored"] }
validator = { version = "*", features = ["derive"] }
