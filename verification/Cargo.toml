[package]
name = "reqtui"
version = "0.1.0"
edition = "2021"
publish = false

[dependencies]
serde_json = "=1.0.151"
tokio = { version = "=1.53.2", default-features = false, features = ["rt-multi-thread", "macros", "sync"] }
reqwest = { version = "=0.12.28", default-features = false, features = ["json", "rustls-tls"] }
ratatui = "=0.28.1"
crossterm = "=0.28.1"
tui-textarea = "=0.6.1"
arboard = { version = "=3.6.1", default-features = false }
