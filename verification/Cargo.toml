[package]
name = "mirrorfour_api"
version = "0.1.0"
edition = "2021"
publish = false

[dependencies]
chrono = { version = "0.4", features = ["serde"] }
chrono-tz = { version = "0.10", features = ["serde"] }
rust-argon2 = "2"
base64 = "0.22"
rand = "0.9"
serde = { version = "1", features = ["derive"] }
anyhow = "1"
actix-web = "4"
actix-session = { version = "0.10", features = ["cookie-session"] }
sqlx = { version = "0.8", default-features = false, features = ["runtime-tokio", "postgres", "chrono", "macros", "migrate"] }
utoipa = { version = "5", features = ["actix_extras", "chrono"] }
utoipa-actix-web = "0.1"
futures = "0.3"
tracing = "0.1"
tracing-subscriber = "0.3"
