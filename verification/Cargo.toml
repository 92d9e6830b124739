[package]
name = "silius"
version = "0.1.0"
edition = "2021"
publish = false

[dependencies]
ethers = { version = "2", default-features = false }
regex = "1"
serde_json = "1"
thiserror = "1"
eyre = "0.6"
rpassword = "7"
expanded-pathbuf = "0.1"
