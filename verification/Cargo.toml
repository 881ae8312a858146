[package]
name = "ractor"
version = "0.1.0"
edition = "2021"
publish = false

[dependencies]
tokio = { version = "1", features = ["full"] }
num_cpus = "1"
uuid = { version = "1", features = ["v4"] }
crossfire = "1"
futures = "0.3"
async-trait = "0.1"
serde = { version = "1", features = ["derive"] }
bincode = "1"
tokio-tungstenite = "*"
url = "2"
