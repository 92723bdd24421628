[package]
name = "ecdsa_circuit"
version = "0.1.0"
edition = "2021"
publish = false

[dependencies]
pasta_curves = "0.5"
ff = "0.13"
group = "0.13"
halo2_proofs = "0.3"
serde_json = "1"
chrono = "0.4"

[dev-dependencies]
rand = "0.8"
