[package]
name = "astria-conductor"
version = "0.1.0"
edition = "2021"
publish = false

[dependencies]
tonic = "0.10"
prost = "0.12"
prost-types = "0.12"
pbjson-types = "0.6"
tendermint = "0.34"
tendermint-proto = "0.34"
http = "0.2"
hex = "0.4"
tokio = { version = "1", features = ["sync", "rt", "macros"] }
tracing = "0.1"
color-eyre = "0.6"

[dev-dependencies]
sha2 = "0.10"
