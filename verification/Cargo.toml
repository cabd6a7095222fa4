[package]
name = "rustdds"
version = "0.1.0"
edition = "2021"
publish = false

[dependencies]
bit-vec = "0.6"
byteorder = "1"
bytes = "1"
enumflags2 = "0.7"
log = "0.4"
mio = "0.6"
mio-extras = "2"
serde = { version = "1", features = ["derive"] }
speedy = "0.8"
