[package]
name = "snake"
version = "0.1.0"
edition = "2021"
publish = false

[dependencies]
rand = "0.8"
anyhow = "1"
thiserror = "1"
futures = "0.3"
tokio = { version = "1", features = ["macros", "rt-multi-thread", "time"] }
crossterm = { version = "0.25", features = ["event-stream"] }
tui = "0.19"
