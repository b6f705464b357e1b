[package]
name = "appkit"
version = "0.1.0"
edition = "2021"
publish = false

[dependencies]
anyhow = "1"
serde = { version = "1", features = ["derive"] }
shidou = "*"
thiserror = "*"
tokio = { version = "1", features = ["rt"] }
madori = "*"
