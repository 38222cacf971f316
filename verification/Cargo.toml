[package]
name = "av_pipeline"
version = "0.1.0"
edition = "2021"
publish = false

[dependencies]
collect_slice = "1"
anyhow = "1"
axum = { version = "0.6", features = ["ws"] }
bytes = "1"
dcv-color-primitives = { version = "0.5", default-features = false }
dioxus = { version = "0.3", default-features = false, features = ["macro", "hooks", "html"] }
dioxus-liveview = { version = "0.3", default-features = false, features = ["axum"] }
flume = { version = "0.10", default-features = false, features = ["async"] }
futures = { version = "0.3", default-features = false, features = ["std"] }
lazy_static = "1"
libc = "0.2"
tokio = { version = "1", features = ["rt-multi-thread", "macros", "time"] }
tokio-tungstenite = { version = "0.18", default-features = false, features = ["connect"] }
tungstenite = { version = "0.18", default-features = false }
webrtc = { version = "0.7", default-features = false }
