[package]
name = "web_rpc"
version = "0.1.0"
edition = "2021"
publish = false

[dependencies]
proc-macro2 = "1"
quote = "1"
syn = { version = "1", features = ["full"] }
serde = { version = "1", features = ["derive"] }
futures-channel = "0.3"
futures-core = "0.3"
futures-util = "0.3"
