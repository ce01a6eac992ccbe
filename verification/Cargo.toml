[package]
name = "sn_tracer"
version = "0.1.0"
edition = "2021"
publish = false

[dependencies]
tokio = { version = "1", features = ["rt-multi-thread", "macros", "io-util", "io-std", "time", "process", "sync"] }
tokio-serial = "5"
