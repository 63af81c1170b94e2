[package]
name = "rusted_nes"
version = "0.1.0"
edition = "2021"
publish = false

[dependencies]
argparse = "0.2"
minifb = "*"

[dev-dependencies]
nom = "7"
