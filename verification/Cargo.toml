[package]
name = "vector_app"
version = "0.1.0"
edition = "2021"
publish = false

[dependencies]
exitcode = "1.1.2"
futures = "0.3"
tokio = { version = "1", features = ["macros", "rt", "rt-multi-thread", "sync", "time"] }
tokio-stream = "0.1"
