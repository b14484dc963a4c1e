[package]
name = "score_relay"
version = "0.1.0"
edition = "2021"
publish = false

[dependencies]
rand = "0.4"
serde_json = "1"
time = "0.1"
serde = "1"
serde_derive = "1"
iron = "0.6"
bodyparser = "0.8"
hyper = "0.10"
maud = "*"
