[package]
name = "broadcast_relay"
version = "0.1.0"
edition = "2021"
publish = false

[dependencies]
dotenv = "0.15"
tokio = { version = "1", features = ["macros", "rt-multi-thread"] }
tracing = "0.1"
twilight-cache-inmemory = "0.15"
twilight-gateway = "0.15"
twilight-http = "0.15"
twilight-model = "0.15"
