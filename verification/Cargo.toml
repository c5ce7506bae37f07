[package]
name = "evectl"
version = "0.1.0"
edition = "2021"
publish = false

[dependencies]
anyhow = "*"
clap = { version = "*", features = ["derive"] }
ctrlc = "*"
libc = "*"
regex = "*"
reqwest = { version = "*", default-features = false, features = ["blocking", "rustls-tls"] }
semver = "*"
serde = { version = "*", features = ["derive"] }
serde_json = "*"
serde_yaml = "*"
sha2 = "*"
toml = "*"
tracing = "*"
tracing-subscriber = "*"
