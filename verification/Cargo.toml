[package]
name = "measurements"
version = "0.1.0"
edition = "2021"
publish = false

[dependencies]
regex = "1"
num-traits = "0.2"
libm = "0.2"
serde = { version = "1", features = ["derive"] }
