[package]
name = "buildutils"
version = "0.1.0"
edition = "2021"
publish = false

[dependencies]
bon = "3"
tokio = { version = "1", features = ["rt", "time"] }
