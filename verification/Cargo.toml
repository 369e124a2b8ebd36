[package]
name = "dora_mcp_gateway"
version = "0.1.0"
edition = "2021"
publish = false

[dependencies]
uuid = { version = "=1.27.0", features = ["v4"] }
chrono = { version = "=0.4.45", default-features = false, features = ["clock"] }
serde_json = "=1.0.151"
serde = { version = "*", features = ["derive"] }
tokio = { version = "*", features = ["full"] }
tokio-stream = "*"
futures = "*"
reqwest = { version = "=0.13.5", default-features = false, features = ["json"] }
salvo = { version = "=1.0.1", default-features = false, features = ["server", "http1", "affix-state", "cors"] }
figment = { version = "=0.10.19", features = ["yaml", "json", "toml", "env"] }
rmcp = { version = "=0.10.0", features = ["client", "transport-child-process", "transport-sse-client-reqwest", "transport-streamable-http-client-reqwest"] }
eyre = "*"
thiserror = "*"
tracing = "*"
