[package]
name = "robohome"
version = "0.1.0"
edition = "2021"
publish = false

[dependencies]
amqp = { version = "=0.1.3", default-features = false }
bincode = "=1.3.3"
chrono = "=0.4.45"
env_logger = "=0.6.2"
log = "=0.4.34"
postgres = { version = "=0.19.14", features = ["with-chrono-0_4", "with-uuid-1"] }
postgres-derive = "=0.4.9"
postgres-types = "=0.2.14"
rand = "=0.5.6"
serde = "=1.0.229"
serde_derive = "=1.0.229"
serde_json = "=1.0.154"
uuid = "=1.29.0"
wasm-bindgen = "=0.2.129"
x25519-dalek = "=2.0.1"
