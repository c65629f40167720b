[package]
name = "rusty_shark"
version = "0.1.0"
edition = "2021"
publish = false

[dependencies]
crossterm = "0.27"
pcap = "2"
ratatui = "0.26"
thiserror = "1"
tokio = { version = "1", features = ["macros", "rt-multi-thread", "sync", "time"] }
