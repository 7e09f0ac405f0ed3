[package]
name = "rukinia"
version = "0.1.0"
edition = "2021"
publish = false

[dependencies]
nix = { version = "*", features = ["net", "user"] }
reqwest = { version = "*", default-features = false, features = ["blocking"] }
csv = "*"
serde = { version = "*", features = ["derive"] }
config = { version = "*", default-features = false, features = ["toml"] }
tokio = { version = "*", features = ["rt-multi-thread"] }
