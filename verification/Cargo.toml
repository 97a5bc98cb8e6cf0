[package]
name = "steamstacks"
version = "0.1.0"
edition = "2021"
publish = false

[dependencies]
steamstacks-bindings = "*"
bitflags = "1"
lazy_static = "1"
thiserror = "1"
serde = { version = "1", features = ["derive"] }
