[package]
name = "symphony"
version = "0.1.0"
edition = "2021"
publish = false

[dependencies]
sha2 = "=0.10.9"
serde = { version = "=1.0.229", features = ["derive"] }
serde_json = "=1.0.151"
attohttpc = { version = "=0.31.0", default-features = false, features = ["json"] }
tokio = { version = "=1.53.2", features = ["rt", "net", "macros"] }
hyper = { version = "=0.14.32", features = ["server", "http1", "tcp"] }
libloading = "0.8"
