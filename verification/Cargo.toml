[package]
name = "glowrs"
version = "0.1.0"
edition = "2021"
publish = false

[dependencies]
anyhow = "=1.0.104"
candle-core = "=0.4.1"
candle-nn = "=0.4.1"
candle-transformers = "=0.4.1"
# Not used by name: candle-core 0.4 does not compile against later releases of half.
half = "=2.4.1"
hf-hub = "=0.3.2"
serde = "=1.0.229"
serde_json = "=1.0.154"
tokenizers = "=0.15.2"
tokio = { version = "=1.54.1", features = ["rt-multi-thread", "sync"] }
tracing = "=0.1.44"
uuid = { version = "=1.29.0", features = ["v4"] }
