[package]
name = "pleb_signer"
version = "0.1.0"
edition = "2021"
publish = false

[dependencies]
anyhow = "1"
async-channel = "2"
chrono = { version = "0.4", features = ["serde"] }
directories = "5"
ksni = "0.2"
nostr = { version = "0.44", features = ["std", "nip04", "nip06", "nip44", "nip49"] }
nostr-keyring = { version = "0.44", features = ["async"] }
nostr-sdk = "0.44"
serde = { version = "1", features = ["derive"] }
serde_json = "1"
thiserror = "1"
tokio = { version = "1", features = ["full"] }
toml = "0.8"
tracing = "0.1"
tracing-subscriber = "0.3"
zbus = { version = "4", default-features = false, features = ["tokio"] }
