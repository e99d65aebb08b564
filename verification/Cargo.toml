[package]
name = "protocol"
version = "0.1.0"
edition = "2021"
publish = false

[dependencies]
rand = "=0.4.6"
clap = "=2.34.0"
serde = { version = "1", features = ["derive"] }
