[package]
name = "prhub"
version = "0.1.0"
edition = "2021"
publish = false

[dependencies]
unicode-width = "=0.2.2"
octocrab = "=0.47.1"
tokio = { version = "=1.54.1", features = ["rt", "rt-multi-thread"] }
steel-core = { version = "=0.8.3", features = ["dylibs"] }
steel-derive = "=0.8.3"
abi_stable = "0.11.2"
log = "=0.4.34"
