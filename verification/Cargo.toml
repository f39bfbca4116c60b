[package]
name = "async_timing_util"
version = "0.1.0"
edition = "2021"
publish = false

[dependencies]
serde = "1"
serde_derive = "1"
strum = "*"
strum_macros = "*"
tokio = { version = "1", default-features = false, features = ["time"] }
