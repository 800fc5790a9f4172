[package]
name = "bpm_portal"
version = "0.1.0"
edition = "2021"
publish = false

[dependencies]
anyhow = "1"
askama = "*"
async-trait = "0.1"
bpm-engine-bpmn = "*"
bpm-engine-core = "*"
bpm-engine-runtime = "*"
bpm-engine-storage = "*"
pavex = "*"
pavex_session = "*"
pavex_session_sqlx = { version = "*", features = ["postgres"] }
secrecy = { version = "0.8", features = ["serde"] }
serde = { version = "1", features = ["derive"] }
serde-aux = "4"
serde_json = "1"
sqlx = { version = "0.8", default-features = false, features = ["postgres", "runtime-tokio", "uuid", "time", "json", "macros", "migrate"] }
thiserror = "2"
time = { version = "0.3", features = ["formatting"] }
uuid = { version = "1", features = ["v4"] }
