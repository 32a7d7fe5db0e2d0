[package]
name = "ledger_gateway"
version = "0.1.0"
edition = "2021"
publish = false

[dependencies]
md5 = "=0.7.0"
bs58 = "=0.5.1"
base64 = "=0.22.1"
flate2 = "=1.1.10"
bzip2 = "=0.6.1"
zstd = "=0.13.3"
solana-pubkey = "=2.4.0"
solana-signature = "=2.3.0"
solana-hash = "=2.3.0"
solana-sysvar = "=2.3.0"
solana-short-vec = "=2.2.1"
solana-transaction-error = { version = "=2.2.1", features = ["serde"] }
solana-message = { version = "=2.4.0", features = ["serde"] }
solana-transaction = { version = "=2.2.3", features = ["serde"] }
agave-reserved-account-keys = "=2.3.13"
solana-transaction-status = "=2.3.13"
solana-storage-proto = "=2.3.13"
bincode = "=1.3.3"
serde = { version = "=1.0.229", features = ["derive"] }
serde_json = "=1.0.154"
prost = "=0.11.9"
thrift = "=0.17.0"
hbase-thrift = "=1.2.0"
memcache = { version = "=0.21.0", default-features = false }
moka = { version = "=0.12.16", features = ["sync"] }
tokio = { version = "=1.54.1", features = ["full"] }
clap = "=2.34.0"
log = "=0.4.34"
backoff = { version = "=0.4.0", features = ["tokio"] }
solana-account-decoder-client-types = "=2.3.13"
