[package]
name = "rsx_redux"
version = "0.1.0"
edition = "2021"
publish = false

[dependencies]
priority-queue = "*"
serde = { version = "1", features = ["derive"] }
memmap2 = "*"
