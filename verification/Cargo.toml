[package]
name = "nash-protocol"
version = "0.1.0"
edition = "2021"
publish = false

[dependencies]
graphql_client = { version = "*", default-features = false }
nash-mpc = "*"
serde = { version = "1", features = ["derive"] }
serde_json = "1"
tokio = { version = "1", features = ["sync"] }
