[package]
name = "kzg_cell_proofs"
version = "0.1.0"
edition = "2021"
publish = false

[dependencies]
hex = "=0.4.3"
c-kzg = "=2.1.8"
rayon = "=1.12.0"
tokio = { version = "=1.53.2", features = ["rt-multi-thread", "macros"] }
