[package]
name = "nugget_bls"
version = "0.1.0"
edition = "2021"
publish = false

[dependencies]
ark-bls12-381 = { version = "=0.4.0", default-features = false, features = ["curve"] }
ark-ec = { version = "=0.4.2", default-features = false }
ark-ff = { version = "=0.4.2", default-features = false }
ark-serialize = { version = "=0.4.2", default-features = false, features = ["derive"] }
ark-std = { version = "=0.4.0", default-features = false }
dleq_vrf = "=0.0.1"
rand_core = { version = "=0.6.4", features = ["getrandom"] }
zeroize = "=1.9.1"
