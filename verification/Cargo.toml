[package]
name = "arion"
version = "0.1.0"
edition = "2021"
publish = false

[dependencies]
derive-hex = "=0.1.2"
dusk-bls12_381 = "=0.14.2"
dusk-bytes = "=0.1.7"
dusk-plonk = "=0.19.2"
microkelvin = "=0.17.0"
nstack = "=0.16.0"
ranno = "=0.1.0"

[dev-dependencies]
rand = "=0.8.5"
