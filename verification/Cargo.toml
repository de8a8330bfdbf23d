[package]
name = "vm_connect"
version = "0.1.0"
edition = "2021"
publish = false

[dependencies]
serde_json = "1"
tokio = { version = "1", features = ["rt-multi-thread", "sync", "time"] }
clap = { version = "4", default-features = false, features = ["std", "derive"] }
aws-config = { version = "1", default-features = false, features = ["rt-tokio", "rustls"] }
aws-sdk-ssm = { version = "1", default-features = false, features = ["rt-tokio", "rustls"] }
