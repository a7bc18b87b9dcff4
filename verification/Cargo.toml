[package]
name = "chart2d"
version = "0.1.0"
edition = "2021"
publish = false

[dependencies]
nu-protocol = { version = "=0.114.1", default-features = false }
serde = { version = "1", features = ["derive"] }
typetag = "0.2"
