[package]
name = "brewmeister"
version = "0.1.0"
edition = "2021"
publish = false

[dependencies]
byteorder = "1"
async-trait = "0.1"
axum = "0.7"
axum-extra = { version = "0.9", features = ["typed-routing"] }
clap = { version = "4", features = ["derive"] }
http = "1"
serde = { version = "1", features = ["derive"] }
serde_json = "1"
sqlx = { version = "0.7", default-features = false, features = ["sqlite", "runtime-tokio"] }
thiserror = "1"
tokio = { version = "1", features = ["full"] }
tokio-serial = { version = "5.4", default-features = false }
toml = "0.8"
tower = "0.4"
tower-http = { version = "0.5", features = ["compression-gzip", "compression-deflate", "cors", "trace"] }
tracing = "0.1"
tracing-subscriber = "0.3"
