[package]
name = "libafl_events"
version = "0.1.0"
edition = "2021"
publish = false

[dependencies]
ahash = { version = "0.7", default-features = false }
postcard = { version = "1", features = ["alloc"] }
serde = { version = "1", features = ["derive"] }
uuid = { version = "1", features = ["serde"] }
