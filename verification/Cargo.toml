[package]
name = "xemm_core"
version = "0.1.0"
edition = "2021"
publish = false

[dependencies]
tokio = { version = "1", features = ["rt-multi-thread", "sync", "time", "macros", "signal"] }
parking_lot = "0.12"
fast-float = "0.2"
