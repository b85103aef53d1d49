[package]
name = "flowy-sys"
version = "0.1.0"
edition = "2021"
publish = false

[dependencies]
tokio = { version = "1", default-features = false, features = ["sync", "rt"] }
futures = "0.3"
futures-core = "0.3"
