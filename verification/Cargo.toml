[package]
name = "polywrap"
version = "0.1.0"
edition = "2021"
publish = false

[dependencies]
serde = { version = "1", features = ["derive"] }
serde_json = "1"
async-trait = "0.1"
futures = "0.3"
tokio = { version = "1", features = ["sync"] }
rmp-serde = "1"
