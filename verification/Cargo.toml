[package]
name = "binance_async_api"
version = "0.1.0"
edition = "2021"
publish = false

[dependencies]
hmac = "*"
sha2 = "*"
tokio-tungstenite = "*"
reqwest = { version = "*", default-features = false, features = ["json"] }
serde = { version = "*", features = ["derive"] }
serde_json = "*"
url = "*"
futures-util = "*"
tokio = { version = "*", features = ["net"] }

[dev-dependencies]
hex = "*"
