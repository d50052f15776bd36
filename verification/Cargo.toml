[package]
name = "enarx"
version = "0.1.0"
edition = "2021"
publish = false

[dependencies]
anyhow = "1"
clap = { version = "=4.6.7", features = ["derive"] }
drawbridge-client = "=0.4.2"
keyring = "=4.2.0"
oauth2 = "=4.4.2"
openidconnect = { version = "=2.5.1", features = ["ureq"] }
rustls = "=0.22.4"
rustls-pemfile = "=1.0.4"
ureq = "=2.9.6"
url = "=2.5.8"

[dev-dependencies]
drawbridge-type = "=0.4.2"
semver = "=1.0.28"
