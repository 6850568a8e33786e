[package]
name = "qbtui"
version = "0.1.0"
edition = "2021"
publish = false

[dependencies]
chrono = { version = "*", default-features = false, features = ["std"] }
ratatui = "*"
crossterm = { version = "*", features = ["event-stream"] }
tokio = { version = "*", features = ["macros", "rt-multi-thread", "time"] }
futures = { version = "*", default-features = false, features = ["std", "async-await"] }
color-eyre = { version = "*", default-features = false }
confy = "*"
serde = { version = "*", features = ["derive"] }
ratatui-explorer = "*"
