[package]
name = "somm_gravity"
version = "0.1.0"
edition = "2021"
publish = false

[dependencies]
async-trait = "=0.1.92"
eyre = "=0.6.14"
gravity_proto = "=0.5.0"
ocular = "=0.1.0"
prost = "=0.12.6"
prost-types = "=0.12.6"
tonic = "=0.10.2"
