[package]
name = "ecs_run"
version = "0.1.0"
edition = "2021"
publish = false

[dependencies]
clap = "*"
rusoto_core = { version = "*", default-features = false, features = ["rustls"] }
rusoto_ecs = { version = "*", default-features = false, features = ["rustls"] }
rusoto_logs = { version = "*", default-features = false, features = ["rustls"] }
tokio = { version = "*", features = ["rt-multi-thread", "time", "net", "macros"] }
