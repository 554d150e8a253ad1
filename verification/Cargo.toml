[package]
name = "tokio_graphql_ws"
version = "0.1.0"
edition = "2021"
publish = false

[dependencies]
serde = { version = "1", features = ["derive"] }
serde_json = "1"
uuid = { version = "0.8", features = ["v4"] }
tokio = { version = "1", features = ["net"] }
tokio-tungstenite = "0.17"
futures = "0.3"
futures-util = { version = "0.3", features = ["sink"] }
async-trait = "0.1"
syn = { version = "1", features = ["full"] }
quote = "1"
proc-macro2 = "1"
