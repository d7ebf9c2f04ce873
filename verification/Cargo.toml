[package]
name = "rusty_todo"
version = "0.1.0"
edition = "2021"
publish = false

[dependencies]
serde = { version = "1", features = ["derive"] }
serde_json = "1"
jni = "0.21"
lazy_static = "1"
uuid = { version = "1", features = ["v4"] }
