[package]
name = "bouncing_spheres"
version = "0.1.0"
edition = "2021"
publish = false

[dependencies]
rand = "*"
rayon = "*"
png = "*"
log = "*"
chrono = "*"
simple_logger = "*"
structopt = "*"
toml = "*"
serde = "*"
serde_derive = "*"
