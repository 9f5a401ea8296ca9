[package]
name = "sn_transfers"
version = "0.1.0"
edition = "2021"
publish = false

[dependencies]
bincode = "=1.3.3"
sn_data_types = "=0.15.3"
threshold_crypto = "=0.4.0"
safe-nd = "*"

[dev-dependencies]
rand = "=0.7.3"
