[package]
name = "recursive_zkp"
version = "0.1.0"
edition = "2021"
publish = false

[dependencies]
anyhow = "=1.0.104"
bellman = "=0.14.0"
bls12_381 = "=0.8.0"
ff = "=0.13.1"
group = "=0.13.0"
halo2-axiom = "=0.5.3"
hashbrown = "=0.14.5"
pairing = "=0.23.0"
plonky2 = "=1.1.0"
rand = "=0.8.8"
rand_chacha = "=0.3.1"
serde = { version = "=1.0.229", features = ["derive"] }
serde_json = "=1.0.154"
