[package]
name = "adaq-data-stock-us"
version = "0.1.2"
edition = "2021"
publish = false

[dependencies]
base64 = "0.22"
chrono = "0.4"
serde = { version = "1", features = ["derive"] }
serde_json = "1"
tokio = { version = "1", features = ["rt-multi-thread", "macros", "time"] }
futures = "0.3"
prost = "*"
tokio-tungstenite = "*"
rusqlite = { version = "*", features = ["bundled"] }
thiserror = "2"
async-trait = "0.1"
primp = "*"
