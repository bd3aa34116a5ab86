[package]
name = "bridge_core"
version = "0.1.0"
edition = "2021"
publish = false

[dependencies]
serde_json = "*"
serde = { version = "*", features = ["derive"] }
tokio = { version = "*", features = ["full"] }
reqwest = { version = "*", default-features = false, features = ["json"] }
futures = "*"
chromiumoxide = { version = "*", default-features = false, features = ["tokio-runtime"] }
chrono = "*"
walkdir = "*"
sysinfo = "*"
rand = "*"
