[package]
name = "openspec-jsonrpsee"
version = "0.1.0"
edition = "2021"
publish = false

[dependencies]
jsonrpsee = { version = "=0.26.1", features = ["server", "http-client"] }
heck = "=0.5.0"
schemars = "=1.2.3"
serde = { version = "=1.0.229", features = ["derive"] }
serde_json = "=1.0.154"
tokio = { version = "=1.54.1", features = ["rt", "rt-multi-thread", "macros", "time", "sync"] }
syn = { version = "=2.0.119", features = ["full"] }
quote = "=1.0.47"
proc-macro2 = "=1.0.107"
darling = "=0.21.3"
proc-macro-error = "=1.0.4"
typed-builder = "=0.23.2"
