[package]
name = "jinn"
version = "0.1.0"
edition = "2021"
publish = false

[dependencies]
serde_json = "=1.0.154"
serde = { version = "=1.0.229", features = ["derive"] }
base64 = "=0.22.1"
sha2 = "=0.10.9"
url = "=2.5.8"
rand = "=0.9.5"
jiff = "=0.2.39"
tokio = { version = "=1.54.1", features = ["rt", "rt-multi-thread", "macros", "net", "io-util", "time", "sync"] }
reqwest = { version = "=0.12.28", default-features = false, features = ["json", "rustls-tls"] }
dirs = "=6.0.0"
tempfile = "=3.27.0"
parking_lot = "=0.12.5"
async-trait = "=0.1.92"
arboard = { version = "3", default-features = false }
uuid = { version = "1", features = ["v7"] }
