[package]
name = "vtmtools"
version = "0.1.0"
edition = "2021"
publish = false

[dependencies]
rand = "0.8"
chrono = "0.4"
uuid = { version = "1", features = ["v4"] }
serde = { version = "1", features = ["derive"] }
serde_json = "1"
sqlx = { version = "0.8", default-features = false, features = ["sqlite", "runtime-tokio"] }
tokio = { version = "1", features = ["full"] }
tokio-tungstenite = "0.24"
tokio-rustls = "0.26"
rustls-pemfile = "2"
rcgen = "0.13"
futures-util = "0.3"
async-trait = "0.1"

[dev-dependencies]
regex = "1"
