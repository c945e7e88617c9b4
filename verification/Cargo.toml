[package]
name = "chromiumoxide"
version = "0.1.0"
edition = "2021"
publish = false

[dependencies]
adblock = { version = "=0.12.6", default-features = false, features = ["embedded-domain-resolver", "full-regex-handling"] }
aho-corasick = "=1.1.5"
base64 = "=0.22.1"
case_insensitive_string = "=0.2.11"
futures = "0.3"
hashbrown = "=0.17.1"
reqwest = { version = "=0.13.5", default-features = false }
serde = { version = "=1.0.229", features = ["derive"] }
serde_json = { version = "=1.0.154", features = ["unbounded_depth"] }
serde_stacker = "=0.1.14"
spider_fingerprint = { version = "=2.39.0", default-features = false, features = ["std", "serde"] }
spider_network_blocker = "=0.0.86"
tokio = { version = "1", features = ["net", "rt", "macros", "time", "sync"] }
tokio-tungstenite = "=0.30.0"
tracing = "0.1"
