[package]
name = "ittybitty"
version = "0.1.0"
edition = "2021"
publish = false

[dependencies]
anyhow = "=1.0.104"
bytes = "=1.12.1"
crossterm = "=0.28.1"
directories = "=6.0.0"
librqbit = { version = "=8.1.1", default-features = false, features = ["default-tls"] }
ratatui = { version = "=0.29.0", default-features = false, features = ["crossterm"] }
tokio = { version = "=1.54.1", features = ["macros", "rt-multi-thread", "sync", "time"] }
