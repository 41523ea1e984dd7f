[package]
name = "blindbid"
version = "0.1.0"
edition = "2021"
publish = false

[dependencies]
dusk-bls12_381 = "=0.12.3"
dusk-bytes = "=0.1.7"
derive-hex = "=0.1.2"
dusk-jubjub = "=0.13.1"
dusk-pki = "=0.13.0"
dusk-plonk = "=0.16.0"
dusk-poseidon = "=0.31.0"
rand = "=0.8.5"
rand_core = "=0.6.4"
