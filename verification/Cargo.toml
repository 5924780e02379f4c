[package]
name = "ksecrets"
version = "0.1.0"
edition = "2021"
publish = false

[dependencies]
anyhow = "*"
clap = { version = "*", features = ["derive"] }
colorful = "*"
k8s-openapi = { version = "*", features = ["latest"] }
kube = "*"
tokio = { version = "*", features = ["macros", "rt-multi-thread"] }
