[package]
name = "rivetlink"
version = "0.1.0"
edition = "2021"
publish = false

[dependencies]
ashpd = "=0.11.1"
async-trait = "=0.1.92"
base64 = "=0.22.1"
chacha20poly1305 = "=0.10.1"
clap = { version = "=4.6.7", features = ["derive"] }
dashmap = "=6.2.1"
ed25519-dalek = { version = "=2.2.0", features = ["rand_core"] }
evdev = "=0.12.2"
futures-util = "0.3"
hkdf = "=0.12.4"
jpeg-encoder = "=0.6.1"
mdns-sd = "=0.21.7"
ml-dsa = { version = "=0.1.2", features = ["zeroize"] }
ml-kem = { version = "=0.3.4", features = ["getrandom", "zeroize"] }
png = "=0.17.16"
rand = "=0.8.8"
serde = { version = "1", features = ["derive"] }
serde_json = "1"
sha2 = "=0.10.9"
spake2 = "=0.4.0"
thiserror = "=2.0.21"
tokio = { version = "=1.54.1", features = ["full"] }
tokio-tungstenite = "=0.24.0"
tracing = "0.1"
tracing-subscriber = { version = "0.3", features = ["env-filter"] }
uuid = { version = "=1.29.0", features = ["v7"] }
x11rb = { version = "=0.13.2", features = ["xtest"] }
x25519-dalek = { version = "=2.0.1", features = ["static_secrets"] }
zbus = "=5.19.0"
zeroize = "=1.9.1"
