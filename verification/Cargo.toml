[package]
name = "voice_assistant"
version = "0.1.0"
edition = "2021"
publish = false

[dependencies]
async-openai = "0.17"
async-trait = "0.1"
bytes = "1"
dotenv = "0.15"
rubato = "0.14"
serde_json = "1"
serenity = { version = "0.12", default-features = false, features = ["cache", "client", "framework", "gateway", "model", "rustls_backend", "standard_framework", "voice"] }
simple-error = "0.3"
songbird = { version = "0.4", features = ["receive"] }
tokio = { version = "1", features = ["macros", "rt-multi-thread", "sync", "time"] }
uuid = { version = "1", features = ["v4"] }
wav = "1"
