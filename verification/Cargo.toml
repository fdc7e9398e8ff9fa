[package]
name = "backend"
version = "0.1.0"
edition = "2021"
publish = false

[dependencies]
actix-web = "4"
actix-http = "3"
actix-rt = "2"
futures-util = "0.3"
async-trait = "0.1"
chrono = "0.4"
dotenv = "0.15"
env_logger = "0.10"
log = "0.4"
jsonwebtoken = "8"
rust-argon2 = "1"
rand = "0.8"
serde = { version = "1", features = ["derive"] }
serde_json = { version = "1", features = ["raw_value"] }
sea-orm = { version = "0.10", features = ["sqlx-sqlite", "runtime-actix-rustls", "macros", "with-chrono", "with-uuid"] }
sea-orm-migration = { version = "0.10", features = ["sqlx-sqlite", "runtime-actix-rustls"] }
