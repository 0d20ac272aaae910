[package]
name = "hermit_loader"
version = "0.1.0"
edition = "2021"
publish = false

[dependencies]
hermit-entry = { version = "*", features = ["loader"] }
log = "*"
sptr = "*"
