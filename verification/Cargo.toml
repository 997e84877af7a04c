[package]
name = "harmonic"
version = "0.1.0"
edition = "2021"
publish = false

[dependencies]
async-trait = "=0.1.92"
bytes = "=1.12.1"
clap = { version = "=4.6.7", features = ["derive"] }
eyre = "=0.6.14"
reqwest = { version = "=0.11.27", default-features = false, features = ["rustls-tls-native-roots", "socks"] }
serde = { version = "=1.0.229", features = ["derive"] }
serde_json = "=1.0.154"
tar = "=0.4.46"
thiserror = "=1.0.69"
tokio = { version = "=1.54.1", features = ["fs", "macros", "rt", "rt-multi-thread", "signal", "sync"] }
tokio-util = "=0.7.20"
tracing = "=0.1.44"
typetag = "=0.2.23"
xz2 = "=0.1.7"
