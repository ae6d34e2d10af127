[package]
name = "nvim_winpick"
version = "0.1.0"
edition = "2021"
publish = false

[dependencies]
anyhow = "=1.0.104"
nvim-oxi = { version = "=0.6.0", features = ["neovim-0-11"] }
