[package]
name = "webcodex"
version = "0.1.0"
edition = "2021"
publish = false

[dependencies]
chrono = "0.4"
salvo = { version = "*", default-features = false, features = ["server", "http1"] }
serde = { version = "1", features = ["derive"] }
serde_json = "1"
sha2 = "0.10"
tokio = { version = "1", features = ["rt-multi-thread", "macros", "sync", "time"] }
uuid = { version = "1", features = ["v4"] }
