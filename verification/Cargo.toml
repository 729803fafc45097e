[package]
name = "namada_rest"
version = "0.1.0"
edition = "2021"
publish = false

[dependencies]
axum = "0.7.9"
serde = { version = "1", features = ["derive"] }
serde_json = "1"
tendermint-rpc = { version = "0.40.4", features = ["http-client"] }
tokio = { version = "1", features = ["full"] }
toml = "0.8.23"
tower-http = { version = "0.5.2", features = ["cors"] }
