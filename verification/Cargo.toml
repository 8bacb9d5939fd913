[package]
name = "rnd"
version = "0.1.0"
edition = "2021"
publish = false

[dependencies]
tokio = { version = "1", features = ["macros", "rt-multi-thread", "sync", "time"] }
zbus = { version = "5", default-features = false, features = ["tokio"] }
