[package]
name = "blobspam"
version = "0.1.0"
edition = "2021"
publish = false

[dependencies]
rand = "0.8"
alloy = { version = "2", default-features = false, features = ["std", "reqwest", "providers", "rpc-types-eth", "consensus", "network", "signer-local", "kzg"] }
clap = { version = "4", default-features = false, features = ["std", "derive", "help", "usage", "error-context"] }
eyre = "0.6"
futures = { version = "0.3", default-features = false, features = ["std", "alloc"] }
tokio = { version = "1", features = ["macros", "rt-multi-thread", "time"] }
url = "2"
