[package]
name = "chartered"
version = "0.1.0"
edition = "2021"
publish = false

[dependencies]
arrayvec = "0.7"
base64 = "=0.13.1"
bcrypt = "=0.15.1"
bitflags = "=1.3.2"
chacha20poly1305 = "=0.10.1"
hex = "=0.4.3"
md5 = "=0.7.0"
option_set = "=0.4.0"
rand = "=0.8.8"
regex = "=1.13.1"
serde = { version = "=1.0.229", features = ["derive"] }
serde_json = "=1.0.154"
sha2 = "=0.10.9"
shlex = "=1.3.0"
tokio = { version = "=1.54.1", features = ["fs", "io-util", "rt", "macros"] }
url = "=2.5.8"
uuid = { version = "=1.29.1", features = ["v4"] }
