[package]
name = "openworkers_core"
version = "0.1.0"
edition = "2021"
publish = false

[dependencies]
bytes = "1"
tokio = { version = "1", default-features = false, features = ["sync", "rt"] }
tokio-stream = "0.1"
serde = { version = "1", features = ["derive"] }
actix-web = { version = "4", default-features = false }
deno_core = "*"
