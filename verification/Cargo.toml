[package]
name = "screenlink"
version = "0.1.0"
edition = "2021"
publish = false

[dependencies]
sha2 = "0.10"
hex = "0.4"
chacha20poly1305 = "0.10"
image = { version = "0.25", default-features = false, features = ["jpeg"] }
rcgen = "0.13"
serde = { version = "1", features = ["derive"] }
postcard = { version = "1", features = ["use-std"] }
rustls = { version = "0.23", default-features = false, features = ["ring", "std", "logging"] }
tokio = { version = "1", features = ["full"] }
tokio-rustls = { version = "0.26", default-features = false, features = ["ring"] }
anyhow = "1"
thiserror = "1"
tracing = "0.1"
tracing-subscriber = { version = "0.3", features = ["env-filter"] }
mdns-sd = "0.11"
arboard = { version = "3", default-features = false }
directories = "5"
rand = "0.8"
enigo = { version = "0.2", default-features = false, features = ["x11rb"] }
