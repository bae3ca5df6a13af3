[package]
name = "codex_ios"
version = "0.1.0"
edition = "2021"
publish = false

[dependencies]
async-trait = "0.1"
eventsource-stream = "0.2"
futures = "0.3"
libc = "0.2"
russh = "0.46"
russh-sftp = "2"
serde = { version = "1", features = ["derive"] }
serde_json = "1"
sha2 = "0.10"
tempfile = "3"
tokio = { version = "1", features = ["full"] }
tracing = "0.1"

[dependencies.reqwest]
version = "0.12"
default-features = false
features = ["stream"]
