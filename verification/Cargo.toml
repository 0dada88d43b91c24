[package]
name = "buttplug"
version = "0.1.0"
edition = "2021"
publish = false

[dependencies]
futures = "0.3"
prost = { version = "*", default-features = false, features = ["std"] }
serde = { version = "1", features = ["derive"] }
tokio = { version = "1", default-features = false, features = ["sync", "rt"] }
tracing = "0.1"
tracing-futures = "0.2"
