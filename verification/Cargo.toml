[package]
name = "cc_snark"
version = "0.1.0"
edition = "2021"
publish = false

[dependencies]
ark-ff = { version = "=0.4.2", default-features = false, features = ["std"] }
ark-ec = { version = "=0.4.2", default-features = false, features = ["std"] }
ark-poly = { version = "=0.4.2", default-features = false, features = ["std"] }
ark-serialize = { version = "=0.4.2", default-features = false, features = ["std", "derive"] }
ark-std = { version = "=0.4.0", default-features = false, features = ["std"] }
ark-relations = { version = "=0.4.0", default-features = false, features = ["std"] }
ark-r1cs-std = { version = "=0.4.0", default-features = false, features = ["std"] }
ark-crypto-primitives = { version = "=0.4.0", default-features = false, features = ["std", "snark", "sponge", "crh", "merkle_tree", "encryption", "r1cs"] }
ark-groth16 = { version = "=0.4.0", default-features = false, features = ["std", "r1cs"] }
ark-bn254 = { version = "=0.4.0", default-features = false, features = ["std", "curve"] }
ark-ed-on-bn254 = { version = "=0.4.0", default-features = false, features = ["std", "r1cs"] }
derivative = { version = "=2.2.0", features = ["use_core"] }
hex = "=0.4.3"
libc = "=0.2.191"
num-bigint = "=0.4.8"
rand = "=0.8.8"
serde = { version = "=1.0.229", features = ["derive"] }
serde_json = "=1.0.154"
