[package]
name = "marne_monitor"
version = "0.1.0"
edition = "2021"
publish = false

[dependencies]
anyhow = "1"
chrono = "0.4"
confy = "0.6"
flexi_logger = "*"
image = "0.24"
imageproc = "0.23"
log = "0.4"
reqwest = { version = "0.12", default-features = false, features = ["rustls-tls"] }
rusttype = "0.9"
serde = { version = "1", features = ["derive"] }
serde_json = "1"
tokio = { version = "1", features = ["macros", "rt-multi-thread", "time"] }
warp = "0.3"
