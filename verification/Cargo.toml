[package]
name = "fuse_connection"
version = "0.1.0"
edition = "2021"
publish = false

[dependencies]
nix = "0.19"
tokio = { version = "1", features = ["fs", "rt", "net"] }
futures-util = "0.3"
which = "4"
bincode = "1.3"
