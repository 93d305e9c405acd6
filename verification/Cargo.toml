[package]
name = "laika"
version = "0.1.0"
edition = "2021"
publish = false

[dependencies]
url = "*"
tree_magic_mini = { version = "*", features = ["with-gpl-data"] }
tokio = { version = "*", features = ["full"] }
tokio-rustls = "*"
rustls-pemfile = "*"
argh = "*"
serde = { version = "*", features = ["derive"] }
serde_yaml = "*"
simplelog = "*"
log = "*"
