[package]
name = "subtensor_registration"
version = "0.1.0"
edition = "2021"
publish = false

[dependencies]
subxt = "*"
subxt-signer = { version = "*", default-features = false, features = ["sr25519", "subxt"] }
tokio = { version = "*", features = ["macros", "rt-multi-thread", "time", "sync"] }
clap = { version = "*", default-features = false, features = ["derive", "std", "help"] }
serde = { version = "*", features = ["derive"] }
log = "*"
env_logger = { version = "*", default-features = false }
toml = "*"
