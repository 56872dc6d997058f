[package]
name = "corruptabledb"
version = "0.1.0"
edition = "2021"
publish = false

[dependencies]
tokio = { version = "=1.54.1", default-features = false, features = ["sync"] }
tonic = { version = "=0.14.6", default-features = false, features = ["codegen"] }
