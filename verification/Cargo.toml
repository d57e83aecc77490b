[package]
name = "connect-io"
version = "0.1.3"
edition = "2021"
publish = false

[dependencies]
serialport = { version = "4", default-features = false }
tokio = { version = "1", features = ["net", "sync", "rt", "rt-multi-thread", "macros", "time", "io-util"] }
tokio-serial = { version = "5", default-features = false }
async-trait = "0.1"
serde = { version = "1", features = ["derive"] }
serde_json = "1"
thiserror = "2"
log = "0.4"
tauri = { version = "2", default-features = false }
