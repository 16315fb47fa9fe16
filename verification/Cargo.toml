[package]
name = "trassenfinder_explorer"
version = "0.1.0"
edition = "2021"
publish = false

[dependencies]
anyhow = "1"
ordered-float = "2"
reqwest = { version = "0.11", default-features = false, features = ["blocking", "json", "rustls-tls"] }
serde = { version = "1", features = ["derive"] }
structopt = "0.3"
termion = "1.5"
tui = "0.8"
