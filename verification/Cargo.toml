[package]
name = "network_types"
version = "0.1.0"
edition = "2021"
publish = false

[dependencies]
serde = { version = "1", features = ["derive"] }
thiserror = "1"
zbus = { version = "3", default-features = false, features = ["tokio"] }
