[package]
name = "defmt-file"
version = "0.1.0"
edition = "2021"
publish = false

[dependencies]
defmt = "0.3"

[dev-dependencies]
rzcobs = "0.1"
