[package]
name = "irt"
version = "0.1.0"
edition = "2021"
publish = false

[dependencies]
url = "=2.5.8"
nalgebra = "=0.35.0"
serde = { version = "=1.0.229", features = ["derive"] }
thiserror = "=1.0.69"
anyhow = "=1.0.104"
tracing = "=0.1.44"
tracing-subscriber = { version = "=0.3.23", features = ["env-filter"] }
ureq = { version = "=2.12.1", features = ["json"] }
tokio = { version = "=1.54.1", features = ["macros", "rt-multi-thread", "net"] }
axum = { version = "=0.7.9", features = ["macros"] }
livekit-api = { version = "=0.9.1", default-features = false, features = ["access-token"] }
swift-bridge = "=0.1.59"

[dev-dependencies]
approx = "=0.5.1"
