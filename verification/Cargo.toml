[package]
name = "webhook_ingest"
version = "0.1.0"
edition = "2021"
publish = false

[dependencies]
aes-gcm = "=0.10.3"
chrono = "=0.4.45"
dotenv = "=0.15.0"
hex = "=0.4.3"
hmac = "=0.12.1"
openssl = "0.10"
postgres = "0.19"
postgres-openssl = "0.5"
resend-rs = "*"
serde = { version = "=1.0.229", features = ["derive"] }
serde_json = "=1.0.154"
sha1 = "=0.10.7"
