[package]
name = "jstz_proto"
version = "0.1.0"
edition = "2021"
publish = false

[dependencies]
anyhow = "1"
boa_engine = "0.17"
boa_gc = "0.17"
http = "0.2"
rustyline = "12"
tezos-smart-rollup = "0.2"
tezos-smart-rollup-mock = "0.2"
tezos_crypto_rs = { version = "0.5", default-features = false }
