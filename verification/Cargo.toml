[package]
name = "proving_service"
version = "0.1.0"
edition = "2021"
publish = false

[dependencies]
zcash_proofs = "=0.31.0"
sapling-crypto = "=0.9.0"
jubjub = "=0.11.1"
bls12_381 = "=0.9.0"
group = "=0.14.0"
incrementalmerkletree = "=0.9.0"
rand_core = "=0.10.1"
getrandom = { version = "=0.4.3", features = ["sys_rng"] }
actix-web = "4"
actix-cors = "0.7"
serde = { version = "1", features = ["derive"] }
serde_json = "1"
anyhow = "1"
