[package]
name = "openai_proxy"
version = "0.1.0"
edition = "2021"
publish = false

[dependencies]
async-openai = { version = "=0.41.3", default-features = false, features = ["rustls", "assistant", "chat-completion", "completions", "embedding", "model", "image", "file", "responses"] }
axum = { version = "=0.8.9", features = ["multipart"] }
tokio = { version = "=1.53.2", features = ["full"] }
tower-http = { version = "*", features = ["cors"] }
tracing = "=0.1.44"
tracing-subscriber = "=0.3.23"
