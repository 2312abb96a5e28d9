[package]
name = "media_bridge"
version = "0.1.0"
edition = "2021"
publish = false

[dependencies]
axum = "0.6"
base64 = "0.21"
color-eyre = "0.6"
futures = "0.3"
serde = { version = "1", features = ["derive"] }
serde_json = "1"
tokio = { version = "1", features = ["full"] }
tokio-tungstenite = "0.20"
toml = "0.8"
tower-http = { version = "0.4", features = ["fs"] }
windows = { version = "0.48", features = ["Foundation", "Foundation_Collections", "Media_Control", "Storage_Streams"] }
