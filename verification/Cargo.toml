[package]
name = "apple2-core"
version = "0.1.0"
edition = "2021"
publish = false

[dependencies]
bitflags = "2"
serde = { version = "1", features = ["derive"] }
thiserror = "2"
hound = "3"
