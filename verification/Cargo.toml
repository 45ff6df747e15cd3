[package]
name = "radicle-terminal"
version = "0.1.0"
edition = "2021"
publish = false

[dependencies]
unicode-segmentation = "=1.13.3"
textwrap = "=0.16.4"
timeago = { version = "=0.6.1", default-features = false }
tui = "=0.19.0"
crossterm = "=0.25.0"
anyhow = "=1.0.104"
thiserror = "=1.0.69"
lexopt = "=0.2.1"
url = "2"
regex = "1"
chrono = { version = "0.4", default-features = false, features = ["std", "clock"] }
