[package]
name = "poseidon2"
version = "0.1.0"
edition = "2021"
publish = false

[dependencies]
ff = "=0.13.1"
halo2curves = "=0.10.0"
