[package]
name = "myne_books"
version = "0.1.0"
edition = "2021"
publish = false

[dependencies]
regex = "=1.13.1"
rusqlite = { version = "*", features = ["bundled"] }
grammers-client = { version = "=0.7.0", features = ["html"] }
grammers-session = "=0.7.0"
tokio = { version = "*", features = ["rt"] }
log = "*"
log4rs = "*"
toml = "*"
serde = { version = "*", features = ["derive"] }
