[package]
name = "elevenlabs_sdk"
version = "0.1.0"
edition = "2021"
publish = false

[dependencies]
bytes = "=1.12.1"
futures-core = "=0.3.34"
hpx = { version = "=2.4.34", default-features = false, features = ["http1", "json", "stream"] }
http = "=1.5.0"
serde = { version = "=1.0.229", features = ["derive"] }
serde_json = "=1.0.154"
thiserror = "=2.0.21"
tokio = { version = "=1.54.1", features = ["rt-multi-thread", "macros", "time"] }
tracing = "=0.1.44"
url = "=2.5.8"
