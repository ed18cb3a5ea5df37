[package]
name = "timed_dispatch"
version = "0.1.0"
edition = "2021"
publish = false

[dependencies]
fantoccini = "=0.21.5"
tokio = { version = "=1.54.1", features = ["macros", "rt"] }
