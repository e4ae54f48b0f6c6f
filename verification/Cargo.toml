[package]
name = "dead_man_switch"
version = "0.1.0"
edition = "2021"
publish = false

[dependencies]
serde = { version = "*", features = ["derive"] }
toml = "*"
directories-next = "*"
lettre = { version = "*", default-features = false, features = ["builder", "smtp-transport", "rustls-tls"] }
mime_guess = "*"
clap = { version = "*", features = ["derive"] }
crossterm = "*"
ratatui = "*"
thiserror = "*"
