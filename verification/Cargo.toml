[package]
name = "rprox"
version = "0.1.0"
edition = "2021"
publish = false

[dependencies]
caps = "0.5"
http = "0.2"
hyper = { version = "0.14", features = ["full"] }
notify = "6.1"
serde = { version = "1", features = ["derive"] }
serde_yaml = "0.8"
tokio = { version = "1", features = ["full"] }
