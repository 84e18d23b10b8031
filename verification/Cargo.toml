[package]
name = "boinc_client"
version = "0.1.0"
edition = "2021"
publish = false

[dependencies]
rust-crypto = "=0.2.36"
uuid = { version = "=1.27.0", features = ["v4"] }
treexml = "=0.7.0"
