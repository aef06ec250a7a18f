[package]
name = "eshu_shapeshifter"
version = "0.1.0"
edition = "2021"
publish = false

[dependencies]
anyhow = "=1.0.104"
chrono = "=0.4.45"
clap = { version = "=4.6.7", features = ["derive"] }
libc = "=0.2.190"
rand = "=0.10.3"
reqwest = { version = "=0.13.5", default-features = false, features = ["blocking", "form", "json"] }
rusqlite = { version = "=0.40.2", features = ["bundled"] }
serde = { version = "=1.0.229", features = ["derive"] }
serde_json = "=1.0.151"
toml = "=1.1.6"
