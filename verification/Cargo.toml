[package]
name = "hello_bridge"
version = "0.1.0"
edition = "2021"
publish = false

[dependencies]
jni = "0.21.1"

[dev-dependencies]
jni = { version = "0.21.1", features = ["invocation"] }
