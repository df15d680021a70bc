[package]
name = "clipsync"
version = "0.1.0"
edition = "2021"
publish = false

[dependencies]
clipboard = "=0.5.0"
http = "=0.2.12"
log = "=0.4.34"
neovim-lib = "=0.6.1"
prost = "=0.11.9"
rmp = "=0.8.10"
simple-logging = "=2.0.2"
snailquote = "=0.3.1"
tokio = { version = "=1.54.1", features = ["macros", "rt-multi-thread", "sync"] }
tonic = "=0.9.2"
