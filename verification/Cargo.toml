[package]
name = "stream2blog"
version = "0.1.0"
edition = "2021"
publish = false

[dependencies]
anyhow = "*"
arboard = { version = "*", default-features = false, features = ["image-data"] }
chrono = { version = "*", default-features = false, features = ["clock"] }
env_logger = { version = "*", default-features = false }
image = { version = "*", default-features = false, features = ["png", "jpeg"] }
log = "*"
ratatui = "*"
reqwest = { version = "*", default-features = false, features = ["json", "rustls-tls"] }
serde = { version = "*", features = ["derive"] }
tokio = { version = "*", features = ["macros", "rt-multi-thread", "fs"] }
