[package]
name = "profuzz"
version = "0.1.0"
edition = "2021"
publish = false

[dependencies]
rand = "0.9"
rand_chacha = "0.9"
sha1 = "0.10"
hex = "0.4"
pnet = "0.35"
pnet_macros = "0.35"
pnet_macros_support = "0.35"
pnet_layers = "*"
pnet_show = "*"
pcap = "2"
crc = "3"
log = "0.4"
tokio = { version = "1", features = ["full"] }
serde = { version = "1", features = ["derive"] }
serde_json = "1"
thiserror = "2"
clap = { version = "4", features = ["derive"] }
tracing = "0.1"
tracing-subscriber = "0.3"
tui-logger = { version = "*", features = ["tracing-support"] }
ratatui = "*"
crossterm = "*"
