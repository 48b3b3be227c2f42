[package]
name = "weather_tui"
version = "0.1.0"
edition = "2021"
publish = false

[dependencies]
clap = { version = "=4.6.7", features = ["derive"] }
color-eyre = "=0.6.5"
crossterm = "=0.29.0"
rand = "=0.10.3"
ratatui = "=0.30.2"
reqwest = { version = "=0.12.28", default-features = false, features = ["json", "rustls-tls"] }
serde = { version = "=1.0.229", features = ["derive"] }
thiserror = "=2.0.21"
tokio = { version = "=1.54.1", features = ["macros", "rt-multi-thread"] }

[dev-dependencies]
http = "=1.5.0"
