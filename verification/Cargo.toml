[package]
name = "sponsor_relay"
version = "0.1.0"
edition = "2021"
publish = false

[dependencies]
hex = "=0.4.3"
hmac-sha256 = "=1.1.15"
http = "=1.5.0"
http-body-util = "*"
serde_json = "=1.0.151"
tokio = { version = "=1.53.2", default-features = false, features = ["macros", "rt-multi-thread"] }
vercel_runtime = "=2.4.1"
reqwest = { version = "=0.13.5", default-features = false }
