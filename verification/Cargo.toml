[package]
name = "workshop"
version = "0.1.0"
edition = "2021"
publish = false

[dependencies]
anyhow = "1"
bollard = "0.17"
futures-util = "0.3"
googletest = "0.11"
http = "1"
mockall = "0.13"
serde_json = "1"
tokio = { version = "1", features = ["macros", "rt-multi-thread", "time"] }
wiremock = "0.6"
