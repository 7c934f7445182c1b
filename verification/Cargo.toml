[package]
name = "proof_system"
version = "0.1.0"
edition = "2021"
publish = false

[dependencies]
ark-bls12-381 = "=0.4.0"
ark-ec = "=0.4.2"
ark-ff = "=0.4.2"
ark-serialize = "=0.4.2"
ark-std = "=0.4.0"
bbs_plus = "=0.25.0"
blake2 = "=0.10.6"
dock_crypto_utils = "=0.23.0"
schnorr_pok = "=0.23.0"
vb_accumulator = "=0.29.0"
zeroize = "=1.9.1"
