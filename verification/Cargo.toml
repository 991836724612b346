[package]
name = "gateway_sp_comms"
version = "0.1.0"
edition = "2021"
publish = false

[dependencies]
tokio = { version = "1", features = ["rt-multi-thread", "sync", "time", "net", "macros"] }
serde = { version = "1", features = ["derive"] }
slog = "2"
uuid = "1"
