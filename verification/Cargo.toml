[package]
name = "warrior4-appliance"
version = "0.1.0"
edition = "2021"
publish = false

[dependencies]
anyhow = "1"
chrono = { version = "0.4", features = ["serde"] }
clap = { version = "4", features = ["derive"] }
cursive = "*"
dnsclient = "*"
network-interface = "*"
rand = "0.9"
reqwest = { version = "0.12", default-features = false, features = ["blocking", "default-tls"] }
serde = { version = "1", features = ["derive"] }
serde_json = "1"
toml = "*"
tracing = "0.1"
tracing-appender = "0.2"
tracing-subscriber = "0.3"
ureq = "3"
url = "2"
uuid = { version = "1", features = ["v4", "serde"] }
vt = "*"
