[package]
name = "daktilo_nvim"
version = "0.1.0"
edition = "2021"
publish = false

[dependencies]
anyhow = "=1.0.104"
nvim-oxi = { version = "=0.3.0", features = ["libuv", "neovim-0-8"] }
serde = { version = "1", features = ["derive"] }
tokio = { version = "1", features = ["rt-multi-thread", "macros", "sync"] }
