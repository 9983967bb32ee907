[package]
name = "tsukimi"
version = "0.1.0"
edition = "2021"
publish = false

[dependencies]
bytefmt = "=0.1.7"
dirs = "=5.0.1"
async-channel = "=2.5.0"
tokio = { version = "=1.54.1", features = ["rt-multi-thread", "sync"] }
gtk4 = { version = "=0.7.3", features = ["v4_12"] }
libadwaita = { version = "=0.5.3", features = ["v1_4"] }
