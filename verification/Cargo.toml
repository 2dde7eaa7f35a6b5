[package]
name = "identity_provider"
version = "0.1.0"
edition = "2021"
publish = false

[dependencies]
async-trait = "0.1"
bcrypt = "0.15"
chrono = { version = "0.4", features = ["serde"] }
concurrent-queue = "2"
confique = "0.2"
dashmap = "6"
log = { version = "0.4", features = ["kv_std"] }
refinery = { version = "0.8", features = ["tokio-postgres"] }
serde = { version = "1", features = ["derive"] }
sqlx = { version = "0.7", default-features = false, features = ["postgres", "runtime-tokio", "chrono", "uuid"] }
structured-logger = "1"
tap = "1"
thiserror = "1"
tokio = { version = "1", features = ["full"] }
uuid = { version = "1", features = ["v4", "serde"] }
warp = { version = "0.3", default-features = false }
