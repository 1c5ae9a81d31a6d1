[package]
name = "messagebus"
version = "0.9.13"
edition = "2021"
publish = false

[dependencies]
sharded-slab = "0.1"
erased-serde = "0.3"
tokio = { version = "1", features = ["sync"] }
futures = "0.3"
thiserror = "1"
log = "0.4"
syn = { version = "1", features = ["full"] }
quote = "1"
proc-macro2 = "1"
