[package]
name = "adbyss"
version = "0.1.0"
edition = "2021"
publish = false

[dependencies]
idna = "=1.1.0"
regex = "=1.13.1"
dactyl = "=0.14.1"
utc2k = "=0.21.1"
minreq = "=2.14.1"
argyle = "=0.16.0"
fyi_msg = "=2.5.0"
serde = { version = "=1.0.229", features = ["derive"] }
serde_yml = "=0.0.13"
write_atomic = "=0.9.0"
nix = { version = "=0.31.3", features = ["user"] }
