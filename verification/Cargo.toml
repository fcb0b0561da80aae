[package]
name = "particle_collector"
version = "0.1.0"
edition = "2021"
publish = false

[dependencies]
chrono = { version = "=0.4.45", features = ["serde"] }
uuid = { version = "=1.29.0", features = ["v4"] }
csv = "=1.4.0"
serde = { version = "=1.0.229", features = ["derive"] }
serde_json = "=1.0.154"
axum = "=0.6.20"
tokio = { version = "=1.54.1", features = ["macros", "rt-multi-thread"] }
diesel = { version = "=2.3.14", features = ["postgres", "chrono"] }
dotenvy = "=0.15.7"
iced = { version = "0.10", default-features = false }
