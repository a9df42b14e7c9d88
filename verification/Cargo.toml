[package]
name = "rbfrt"
version = "0.1.0"
edition = "2021"
publish = false

[dependencies]
prost = "0.11"
tonic = "0.8"
tokio = { version = "1", features = ["rt-multi-thread", "macros", "sync"] }
tokio-stream = "0.1"
crossbeam-channel = "0.5"
serde = { version = "1", features = ["derive"] }
serde_json = "1"
log = "0.4"
thiserror = "1"
prettytable-rs = "0.10"
strum = "0.25"
strum_macros = "0.25"
futures-core = "0.3"
http = "0.2"
