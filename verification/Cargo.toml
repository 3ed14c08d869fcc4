[package]
name = "helix-view"
version = "0.6.0"
edition = "2021"
publish = false

[dependencies]
anyhow = "1"
base64 = "0.13"
clipboard-win = { version = "4.2", features = ["std"] }
crossterm = "0.23"
futures-util = { version = "0.3", default-features = false, features = ["std"] }
log = "0.4"
tokio = { version = "1", features = ["rt", "process", "io-util", "fs", "time"] }
which = "4.2"
