[package]
name = "net_transport"
version = "0.1.0"
edition = "2021"
publish = false

[dependencies]
async-net = "2"
bevy = { version = "0.14", default-features = false }
bytes = "1"
futures-lite = "2"
kanal = "*"
serde = "1"
