[package]
name = "http_browse"
version = "0.1.0"
edition = "2021"
publish = false

[dependencies]
chromiumoxide = "=0.9.1"
futures = "=0.3.34"
tokio = { version = "=1.53.2", features = ["rt-multi-thread", "macros"] }
nu-plugin = "=0.114.1"
nu-protocol = "=0.114.1"
