[package]
name = "reticulum_mobile"
version = "0.1.0"
edition = "2021"
publish = false

[dependencies]
base64 = "=0.23.1"
crossbeam-channel = "=0.5.17"
fs-err = "=3.3.2"
jni = "=0.22.4"
log = "=0.4.34"
lxmf = "=0.13.0"
rand_core = { version = "=0.6.4", features = ["getrandom"] }
reqwest = { version = "=0.13.5", default-features = false }
reticulum = "=0.1.0"
reticulum-rs-core = "=0.13.0"
serde = { version = "=1.0.229", features = ["derive"] }
serde_json = "=1.0.151"
thiserror = "=2.0.21"
tokio = { version = "=1.53.2", features = ["rt-multi-thread", "sync", "time", "macros"] }

[dev-dependencies]
hex = "=0.4.3"
regex = "=1.13.1"
