[package]
name = "statime"
version = "0.1.0"
edition = "2021"
publish = false

[dependencies]
arrayvec = { version = "=0.7.8", default-features = false }
az = "=1.3.0"
fixed = "=1.31.0"
rand = { version = "=0.8.8", default-features = false, features = ["std", "std_rng"] }
serde = { version = "=1.0.229", features = ["derive"] }
thiserror = "=1.0.69"
typenum = "=1.20.1"
