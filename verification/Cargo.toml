[package]
name = "multithreaded_kv_store"
version = "0.1.0"
edition = "2021"
publish = false

[dependencies]
prost = "0.13"
tokio = { version = "1", features = ["rt-multi-thread", "macros", "time"] }
