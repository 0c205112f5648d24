[package]
name = "webserver"
version = "0.1.0"
edition = "2021"
publish = false

[dependencies]
openidconnect = "4"
serde_json = "1"
url = "2"
galvyn = { version = "*", default-features = false }
tokio = { version = "1", features = ["macros", "rt-multi-thread"] }
clap = { version = "4", features = ["derive"] }
serde = { version = "1", features = ["derive"] }
tracing = "0.1"
tracing-subscriber = { version = "0.3", features = ["env-filter"] }
tracing-forest = "*"
uuid = "1"
anyhow = "1"

[dev-dependencies]
sha2 = "0.10"
base64 = "0.22"
