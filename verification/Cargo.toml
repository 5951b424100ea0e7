[package]
name = "onnx_serving"
version = "0.1.0"
edition = "2021"
publish = false

[dependencies]
axum = "0.8"
ndarray = "0.17"
ort = { version = "=2.0.0-rc.13", features = ["ndarray"] }
serde = { version = "1", features = ["derive"] }
serde_json = "1"
tokio = { version = "1", features = ["macros", "net", "rt-multi-thread"] }
tracing = "0.1"
tracing-subscriber = "0.3"
