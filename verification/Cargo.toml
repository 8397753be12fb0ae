[package]
name = "wezterm_core"
version = "0.1.0"
edition = "2021"
publish = false

[dependencies]
anyhow = "1"
euclid = "0.22"
log = "0.4"
ordered-float = "4"
rfd = { version = "=0.17.2", default-features = false, features = ["xdg-portal"] }
winapi = { version = "0.3", features = ["wincon"] }
