[package]
name = "board_driver"
version = "0.1.0"
edition = "2021"
publish = false

[dependencies]
async-trait = "0.1"
log = "0.4"
rppal = "*"
thiserror = "1"
tokio = { version = "1", default-features = false, features = ["sync", "rt", "time"] }
