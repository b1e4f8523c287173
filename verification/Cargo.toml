[package]
name = "cap_std_ext"
version = "0.1.0"
edition = "2021"
publish = false

[dependencies]
cap-std = { version = "*", features = ["fs_utf8"] }
rustix = { version = "*", features = ["fs", "process", "pipe"] }
uuid = { version = "*", features = ["v4"] }
io-lifetimes = "*"

[dev-dependencies]
cap-tempfile = "*"
rand = "*"
