[package]
name = "tba_client"
version = "0.1.0"
edition = "2021"
publish = false

[dependencies]
async-trait = "=0.1.92"
awc = "=3.8.2"
serde = { version = "=1.0.229", features = ["derive"] }
serde_repr = "=0.1.21"
thiserror = "=2.0.21"
url = { version = "=2.5.8", features = ["serde"] }
