[package]
name = "iron-throne-consensus"
version = "0.1.0"
edition = "2021"
publish = false

[dependencies]
anchor-lang = { version = "0.30.1", features = ["init-if-needed"] }
borsh = "0.10.3"
