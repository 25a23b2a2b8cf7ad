[package]
name = "broker_client"
version = "0.4.1"
edition = "2021"
publish = false

[dependencies]
serde = { version = "1", features = ["derive"] }
serde_json = "1"
reqwest = { version = "0.12", default-features = false }
tokio = { version = "1", features = ["macros", "net", "rt", "sync", "time"] }
tokio-tungstenite = "*"
futures-util = { version = "*", features = ["sink"] }
async-trait = "*"
uuid = { version = "1", features = ["v4"] }
