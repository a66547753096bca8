[package]
name = "mcp_mux"
version = "0.1.0"
edition = "2021"
publish = false

[dependencies]
anyhow = "1"
axum = "0.8"
rmcp = { version = "=0.2.1", features = ["client", "server", "macros", "transport-io", "transport-child-process", "transport-sse-client", "reqwest"] }
serde = { version = "1", features = ["derive"] }
serde_json = "=1.0.154"
tokio = { version = "1", features = ["full"] }
tracing = "0.1"
tracing-subscriber = { version = "0.3", features = ["env-filter"] }
