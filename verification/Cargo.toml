[package]
name = "bcli"
version = "0.1.0"
edition = "2021"
publish = false

[dependencies]
serde = { version = "*", features = ["derive"] }
serde_json = "*"
clap = { version = "*", features = ["derive", "env"] }
reqwest = { version = "*", default-features = false, features = ["json"] }
rumqttc = "*"
tokio = { version = "*", features = ["rt-multi-thread", "sync", "time", "macros"] }
url = "*"
uuid = { version = "*", features = ["v4"] }
