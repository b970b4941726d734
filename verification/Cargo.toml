[package]
name = "codemux"
version = "0.1.0"
edition = "2021"
publish = false

[dependencies]
base64 = "=0.22.1"
clap = { version = "=4.6.7", features = ["derive"] }
color-eyre = "=0.6.5"
crossterm = "=0.29.0"
ratatui = "=0.30.2"
tracing = "=0.1.44"
tui-term = "=0.3.4"
unicode-width = "=0.2.2"
vt100 = "=0.16.2"
