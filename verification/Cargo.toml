[package]
name = "ligate_node"
version = "0.1.0"
edition = "2021"
publish = false

[dependencies]
anyhow = "1"
arbitrary = { version = "1", features = ["derive"] }
async-trait = "0.1"
bech32 = "0.11"
borsh = { version = "1", features = ["derive"] }
bytes = "1"
digest = "0.10"
hex = "0.4"
proptest = "1"
schemars = "0.8"
serde = { version = "1", features = ["derive"] }
serde_json = "1"
tokio = { version = "1", features = ["macros", "rt", "sync", "time"] }
tracing = "0.1"
