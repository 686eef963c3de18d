[package]
name = "bank_of_dad"
version = "0.1.0"
edition = "2021"
publish = false

[dependencies]
axum = { version = "0.6", features = ["ws"] }
chrono = { version = "0.4", features = ["serde"] }
futures = "0.3"
log = "0.4"
nanoid = "0.4"
serde = { version = "1", features = ["derive"] }
serde_json = { version = "1", features = ["arbitrary_precision"] }
tokio = { version = "1", features = ["macros", "rt-multi-thread", "sync"] }
tower = "0.4"
tracing-subscriber = "0.3"
