[package]
name = "zallet_core"
version = "0.1.0"
edition = "2021"
publish = false

[dependencies]
abscissa_core = { version = "=0.8.2", default-features = false }
age = { version = "=0.11.5", default-features = false }
anyhow = "=1.0.104"
documented = { version = "=0.10.0", default-features = false }
futures = "=0.3.34"
jsonrpsee = { version = "=0.24.11", features = ["server"] }
nonempty = "=0.11.0"
sapling-crypto = "=0.7.0"
schemars = "=1.2.3"
secrecy = "=0.8.0"
serde = { version = "=1.0.229", features = ["derive"] }
serde_json = "=1.0.154"
shardtree = "=0.7.1"
tokio = { version = "=1.54.1", features = ["macros", "rt-multi-thread", "sync", "time", "fs"] }
tracing = "=0.1.44"
zcash_client_backend = { version = "=0.24.0", features = ["orchard", "transparent-inputs"] }
zcash_client_sqlite = { version = "=0.22.0", features = ["orchard", "transparent-inputs"] }
zcash_encoding = "=0.4.0"
zcash_keys = { version = "=0.16.1", features = ["sapling", "orchard", "transparent-inputs", "unstable"] }
zcash_protocol = { version = "=0.10.6", features = ["local-consensus"] }
zcash_transparent = "=0.10.0"
zip32 = "=0.2.1"
