[package]
name = "matrix_crypto"
version = "0.1.0"
edition = "2021"
publish = false

[dependencies]
base64 = "=0.13.1"
hmac = "=0.12.1"
http = "=0.2.12"
js_int = "=0.2.2"
matrix-sdk-common = "=0.7.0"
matrix-sdk-crypto = { version = "=0.7.2", features = ["qrcode", "automatic-room-key-forwarding"] }
matrix-sdk-sqlite = { version = "=0.7.1", default-features = false, features = ["crypto-store", "bundled"] }
pbkdf2 = { version = "=0.11.0", default-features = false }
rand = "=0.8.8"
ruma = { version = "=0.9.4", features = ["client-api-c"] }
serde = "=1.0.229"
serde_json = "=1.0.154"
sha2 = "=0.10.9"
thiserror = "=1.0.69"
tokio = { version = "=1.54.1", default-features = false, features = ["rt-multi-thread"] }
tracing-subscriber = { version = "=0.3.23", features = ["env-filter"] }
