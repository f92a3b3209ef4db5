[package]
name = "notifications"
version = "0.1.0"
edition = "2021"
publish = false

[dependencies]
futures = "0.3"
asynchronous-codec = "*"
bytes = "*"
thiserror = "*"

[dev-dependencies]
unsigned-varint = "*"
